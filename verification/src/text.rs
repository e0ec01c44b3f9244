//! Small text building blocks shared by the rest of the library.
use vstd::prelude::*;

verus! {

/// Appends one character to a string, through `String::push`.
///
/// Trusted: the standard library documents that `push` appends the given
/// `char` to the end of the string; the contract states exactly that.
#[verifier::external_body]
pub(crate) fn push_char(s: &mut String, c: char)
    ensures
        final(s)@ == old(s)@.push(c),
{
    s.push(c);
}

/// The ASCII decimal digit of a value below ten.
pub open spec fn decimal_digit(d: nat) -> char {
    (48 + d) as char
}

/// The decimal representation of a natural number, most significant digit
/// first, without leading zeros (zero is written as `0`).
pub open spec fn decimal_text(n: nat) -> Seq<char>
    decreases n,
{
    if n < 10 {
        seq![decimal_digit(n)]
    } else {
        decimal_text(n / 10).push(decimal_digit(n % 10))
    }
}

/// Writes `n` in decimal.
pub fn decimal_string(n: u16) -> (out: String)
    ensures
        out@ == decimal_text(n as nat),
    decreases n,
{
    if n < 10 {
        let mut out = String::new();
        push_char(&mut out, (48u8 + n as u8) as char);
        out
    } else {
        let mut out = decimal_string(n / 10);
        push_char(&mut out, (48u8 + (n % 10) as u8) as char);
        out
    }
}

} // verus!
