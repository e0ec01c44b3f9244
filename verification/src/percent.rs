//! Percent-encoding of query-string values.
use vstd::prelude::*;
use crate::text::push_char;
use vstd::string::StringSliceAdditionalSpecFns;

verus! {

/// Whether a byte is left as it is: ASCII letters, digits, `-`, `_`, `.`
/// and `~`.
pub open spec fn is_unreserved(b: u8) -> bool {
    ||| 65 <= b <= 90
    ||| 97 <= b <= 122
    ||| 48 <= b <= 57
    ||| b == 45
    ||| b == 95
    ||| b == 46
    ||| b == 126
}

/// The upper-case hexadecimal digit of a value below sixteen.
pub open spec fn hex_digit(n: int) -> char {
    if n < 10 {
        (48 + n) as char
    } else {
        (55 + n) as char
    }
}

/// The encoding of one byte: itself when unreserved, else `%` and its two
/// upper-case hexadecimal digits.
pub open spec fn encode_byte(b: u8) -> Seq<char> {
    if is_unreserved(b) {
        seq![b as char]
    } else {
        seq!['%', hex_digit(b as int / 16), hex_digit(b as int % 16)]
    }
}

/// The percent-encoding of a byte string, byte by byte.
pub open spec fn percent_encode(bytes: Seq<u8>) -> Seq<char>
    decreases bytes.len(),
{
    if bytes.len() == 0 {
        seq![]
    } else {
        percent_encode(bytes.drop_last()) + encode_byte(bytes.last())
    }
}

/// The value of a hexadecimal digit (either case); other characters count
/// as zero.
pub open spec fn hex_value(c: char) -> int {
    if '0' <= c && c <= '9' {
        c as int - 48
    } else if 'A' <= c && c <= 'F' {
        c as int - 55
    } else if 'a' <= c && c <= 'f' {
        c as int - 87
    } else {
        0
    }
}

/// Percent-decoding: `%` followed by two characters stands for the byte that
/// they spell in hexadecimal; any other character stands for its own code.
pub open spec fn percent_decode(s: Seq<char>) -> Seq<u8>
    decreases s.len(),
{
    if s.len() == 0 {
        seq![]
    } else if s[0] == '%' && s.len() >= 3 {
        seq![(hex_value(s[1]) * 16 + hex_value(s[2])) as u8] + percent_decode(s.skip(3))
    } else {
        seq![s[0] as u8] + percent_decode(s.skip(1))
    }
}

/// Characters that may stand in a query value unescaped: the unreserved
/// ones and `%`.
pub open spec fn is_query_safe(c: char) -> bool {
    c == '%' || ((c as int) < 128 && is_unreserved(c as u8))
}

fn is_unreserved_byte(b: u8) -> (r: bool)
    ensures
        r == is_unreserved(b),
{
    match b {
        // 'A'..='Z' | 'a'..='z' | '0'..='9' | '-' | '_' | '.' | '~'
        65..=90 | 97..=122 | 48..=57 | 45 | 95 | 46 | 126 => true,
        _ => false,
    }
}

fn hex_char(n: u8) -> (c: char)
    requires
        n < 16,
    ensures
        c == hex_digit(n as int),
{
    if n < 10 {
        (48u8 + n) as char
    } else {
        (55u8 + n) as char
    }
}

/// Percent-encodes the UTF-8 bytes of `s` for use in a URL query.
pub fn url_encode(s: &str) -> (out: String)
    ensures
        out@ == percent_encode(s.spec_bytes()),
{
    let bytes = s.as_bytes();
    let mut out = String::new();
    let mut i: usize = 0;
    while i < bytes.len()
        invariant
            0 <= i <= bytes@.len(),
            bytes@ == s.spec_bytes(),
            out@ == percent_encode(bytes@.take(i as int)),
        decreases bytes@.len() - i,
    {
        let b = bytes[i];
        let ghost before = out@;
        if is_unreserved_byte(b) {
            push_char(&mut out, b as char);
        } else if b == 32 {
            // a space
            push_char(&mut out, '%');
            push_char(&mut out, '2');
            push_char(&mut out, '0');
        } else {
            assert((b >> 4) == b / 16 && (b & 0xf) == b % 16) by (bit_vector);
            push_char(&mut out, '%');
            push_char(&mut out, hex_char(b >> 4));
            push_char(&mut out, hex_char(b & 0xf));
        }
        proof {
            assert(bytes@.take(i + 1).drop_last() =~= bytes@.take(i as int));
            assert(out@ =~= before + encode_byte(b));
        }
        i = i + 1;
    }
    proof {
        assert(bytes@.take(i as int) =~= bytes@);
    }
    out
}

/// Encoding is compositional: the encoding of a concatenation is the
/// concatenation of the encodings.
pub proof fn lemma_encode_concat(a: Seq<u8>, b: Seq<u8>)
    ensures
        percent_encode(a + b) == percent_encode(a) + percent_encode(b),
    decreases b.len(),
{
    if b.len() == 0 {
        assert(a + b =~= a);
        assert(percent_encode(a) + percent_encode(b) =~= percent_encode(a));
    } else {
        lemma_encode_concat(a, b.drop_last());
        assert((a + b).drop_last() =~= a + b.drop_last());
        assert((a + b).last() == b.last());
        assert(percent_encode(a + b) =~= percent_encode(a) + percent_encode(b));
    }
}

proof fn lemma_decode_encoded_byte(b: u8, rest: Seq<char>)
    ensures
        percent_decode(encode_byte(b) + rest) == seq![b] + percent_decode(rest),
{
    let e = encode_byte(b) + rest;
    if is_unreserved(b) {
        assert(e[0] == b as char);
        assert(e.skip(1) =~= rest);
        assert((b as char) as u8 == b);
    } else {
        let hi = b as int / 16;
        let lo = b as int % 16;
        assert(e[0] == '%');
        assert(e[1] == hex_digit(hi));
        assert(e[2] == hex_digit(lo));
        assert(e.skip(3) =~= rest);
        assert(hex_value(hex_digit(hi)) == hi);
        assert(hex_value(hex_digit(lo)) == lo);
        assert((hi * 16 + lo) as u8 == b);
    }
}

/// Percent-decoding gives back every byte string that was encoded.
pub proof fn lemma_decode_encode(bytes: Seq<u8>)
    ensures
        percent_decode(percent_encode(bytes)) == bytes,
    decreases bytes.len(),
{
    if bytes.len() > 0 {
        let first = seq![bytes[0]];
        let rest = bytes.drop_first();
        assert(first + rest =~= bytes);
        lemma_encode_concat(first, rest);
        assert(first.drop_last() =~= Seq::<u8>::empty());
        assert(percent_encode(first.drop_last()) =~= Seq::<char>::empty());
        assert(first.last() == bytes[0]);
        assert(percent_encode(first) =~= encode_byte(bytes[0]));
        lemma_decode_encoded_byte(bytes[0], percent_encode(rest));
        lemma_decode_encode(rest);
        assert(seq![bytes[0]] + rest =~= bytes);
    }
}

/// Every character of an encoding may stand unescaped in a query value.
pub proof fn lemma_encode_query_safe(bytes: Seq<u8>)
    ensures
        forall|i: int| 0 <= i < percent_encode(bytes).len() ==> is_query_safe(#[trigger] percent_encode(bytes)[i]),
    decreases bytes.len(),
{
    if bytes.len() > 0 {
        lemma_encode_query_safe(bytes.drop_last());
        let b = bytes.last();
        let prefix = percent_encode(bytes.drop_last());
        let e = encode_byte(b);
        assert forall|i: int| 0 <= i < e.len() implies is_query_safe(#[trigger] e[i]) by {
            if !is_unreserved(b) && i > 0 {
                let d = if i == 1 { b as int / 16 } else { b as int % 16 };
                assert(e[i] == hex_digit(d));
                assert(0 <= d < 16);
            }
        }
        assert forall|i: int| 0 <= i < percent_encode(bytes).len() implies is_query_safe(#[trigger] percent_encode(bytes)[i]) by {
            if i < prefix.len() {
                assert(percent_encode(bytes)[i] == prefix[i]);
            } else {
                assert(percent_encode(bytes)[i] == e[i - prefix.len()]);
            }
        }
    }
}

/// A string of unreserved bytes is its own encoding.
pub proof fn lemma_encode_unreserved(bytes: Seq<u8>)
    requires
        forall|i: int| 0 <= i < bytes.len() ==> is_unreserved(#[trigger] bytes[i]),
    ensures
        percent_encode(bytes) == bytes.map_values(|b: u8| b as char),
    decreases bytes.len(),
{
    if bytes.len() > 0 {
        lemma_encode_unreserved(bytes.drop_last());
        assert(is_unreserved(bytes[bytes.len() - 1]));
        assert(percent_encode(bytes) =~= bytes.map_values(|b: u8| b as char));
    }
}

/// Different byte strings never share an encoding.
pub proof fn lemma_encode_injective(a: Seq<u8>, b: Seq<u8>)
    requires
        percent_encode(a) == percent_encode(b),
    ensures
        a == b,
{
    lemma_decode_encode(a);
    lemma_decode_encode(b);
}

/// Byte by byte: each ASCII letter, digit, `-`, `_`, `.` and `~` is written
/// as itself; any other byte is written as `%` followed by its high and low
/// nibble as upper-case hexadecimal digits (`0`-`9`, `A`-`F`).
pub proof fn lemma_encode_single_byte(b: u8)
    ensures
        (65 <= b <= 90 || 97 <= b <= 122 || 48 <= b <= 57 || b == 45 || b == 95 || b == 46 || b == 126)
            ==> percent_encode(seq![b]) == seq![b as char],
        !(65 <= b <= 90 || 97 <= b <= 122 || 48 <= b <= 57 || b == 45 || b == 95 || b == 46 || b == 126)
            ==> percent_encode(seq![b]) == seq![
            '%',
            (if b / 16 < 10 { (48 + b / 16) as char } else { (55 + b / 16) as char }),
            (if b % 16 < 10 { (48 + b % 16) as char } else { (55 + b % 16) as char }),
        ],
{
    let one = seq![b];
    assert(one.drop_last() =~= Seq::<u8>::empty());
    assert(percent_encode(one.drop_last()) =~= Seq::<char>::empty());
    assert(one.last() == b);
    assert(percent_encode(one) =~= encode_byte(b));
}

} // verus!
