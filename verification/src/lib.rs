//! Verified core of a weather lookup tool built on the Open-Meteo services:
//! percent-encoding of query values, the request URLs, the reading of the
//! services' answers into reports, and the weather-code and air-quality
//! vocabularies.
use vstd::prelude::*;

pub mod codes;
pub mod percent;
pub mod report;
pub mod request;
pub mod text;

pub use codes::{european_aqi_label, wmo_description};
pub use percent::url_encode;

verus! {
} // verus!
