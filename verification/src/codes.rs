//! The vocabularies of the weather and air-quality services: WMO weather
//! interpretation codes and the bands of the European air-quality index.
use vstd::prelude::*;

verus! {

/// Whether `code` is one of the WMO weather interpretation codes that have a
/// description of their own.
pub open spec fn is_described_wmo_code(code: u32) -> bool {
    code == 0 || code == 1 || code == 2 || code == 3 || code == 45 || code == 48 || code == 51
        || code == 53 || code == 55 || code == 61 || code == 63 || code == 65 || code == 71
        || code == 73 || code == 75 || code == 77 || code == 80 || code == 81 || code == 82
        || code == 85 || code == 86 || code == 95 || code == 96 || code == 99
}

/// The human-readable description of a WMO weather interpretation code.
pub open spec fn wmo_text(code: u32) -> Seq<char> {
    if code == 0 {
        "Clear sky"@
    } else if code == 1 {
        "Mainly clear"@
    } else if code == 2 {
        "Partly cloudy"@
    } else if code == 3 {
        "Overcast"@
    } else if code == 45 {
        "Fog"@
    } else if code == 48 {
        "Depositing rime fog"@
    } else if code == 51 {
        "Light drizzle"@
    } else if code == 53 {
        "Moderate drizzle"@
    } else if code == 55 {
        "Dense drizzle"@
    } else if code == 61 {
        "Slight rain"@
    } else if code == 63 {
        "Moderate rain"@
    } else if code == 65 {
        "Heavy rain"@
    } else if code == 71 {
        "Slight snow"@
    } else if code == 73 {
        "Moderate snow"@
    } else if code == 75 {
        "Heavy snow"@
    } else if code == 77 {
        "Snow grains"@
    } else if code == 80 {
        "Slight rain showers"@
    } else if code == 81 {
        "Moderate rain showers"@
    } else if code == 82 {
        "Violent rain showers"@
    } else if code == 85 {
        "Slight snow showers"@
    } else if code == 86 {
        "Heavy snow showers"@
    } else if code == 95 {
        "Thunderstorm"@
    } else if code == 96 {
        "Thunderstorm with slight hail"@
    } else if code == 99 {
        "Thunderstorm with heavy hail"@
    } else {
        "Unknown"@
    }
}

/// Maps a WMO weather interpretation code to a human-readable description.
pub fn wmo_description(code: u32) -> (out: String)
    ensures
        out@ == wmo_text(code),
{
    let text: &str = match code {
        0 => "Clear sky",
        1 => "Mainly clear",
        2 => "Partly cloudy",
        3 => "Overcast",
        45 => "Fog",
        48 => "Depositing rime fog",
        51 => "Light drizzle",
        53 => "Moderate drizzle",
        55 => "Dense drizzle",
        61 => "Slight rain",
        63 => "Moderate rain",
        65 => "Heavy rain",
        71 => "Slight snow",
        73 => "Moderate snow",
        75 => "Heavy snow",
        77 => "Snow grains",
        80 => "Slight rain showers",
        81 => "Moderate rain showers",
        82 => "Violent rain showers",
        85 => "Slight snow showers",
        86 => "Heavy snow showers",
        95 => "Thunderstorm",
        96 => "Thunderstorm with slight hail",
        99 => "Thunderstorm with heavy hail",
        _ => "Unknown",
    };
    text.to_owned()
}

/// The band of the European air-quality index that a value falls in, from
/// 0 (good) to 5 (extremely poor).
pub open spec fn aqi_band(aqi: u32) -> nat {
    if aqi <= 20 {
        0
    } else if aqi <= 40 {
        1
    } else if aqi <= 60 {
        2
    } else if aqi <= 80 {
        3
    } else if aqi <= 100 {
        4
    } else {
        5
    }
}

/// The name of a band of the European air-quality index.
pub open spec fn aqi_band_name(band: nat) -> Seq<char> {
    if band == 0 {
        "Good"@
    } else if band == 1 {
        "Fair"@
    } else if band == 2 {
        "Moderate"@
    } else if band == 3 {
        "Poor"@
    } else if band == 4 {
        "Very Poor"@
    } else {
        "Extremely Poor"@
    }
}

/// Names the band of the European air-quality index (0 to 500 and more)
/// that `aqi` falls in.
pub fn european_aqi_label(aqi: u32) -> (out: String)
    ensures
        out@ == aqi_band_name(aqi_band(aqi)),
{
    let text: &str = match aqi {
        0..=20 => "Good",
        21..=40 => "Fair",
        41..=60 => "Moderate",
        61..=80 => "Poor",
        81..=100 => "Very Poor",
        _ => "Extremely Poor",
    };
    text.to_owned()
}

/// A code is described as "Unknown" exactly when it has no description of
/// its own.
pub proof fn lemma_wmo_unknown(code: u32)
    ensures
        wmo_text(code) == "Unknown"@ <==> !is_described_wmo_code(code),
        wmo_text(code) == "Unknown"@ <==> !(code <= 3 || code == 45 || code == 48 || code == 51
            || code == 53 || code == 55 || code == 61 || code == 63 || code == 65 || code == 71
            || code == 73 || code == 75 || code == 77 || code == 80 || code == 81 || code == 82
            || code == 85 || code == 86 || code == 95 || code == 96 || code == 99),
{
    reveal_strlit("Unknown");
    reveal_strlit("Clear sky");
    reveal_strlit("Mainly clear");
    reveal_strlit("Partly cloudy");
    reveal_strlit("Overcast");
    reveal_strlit("Fog");
    reveal_strlit("Depositing rime fog");
    reveal_strlit("Light drizzle");
    reveal_strlit("Moderate drizzle");
    reveal_strlit("Dense drizzle");
    reveal_strlit("Slight rain");
    reveal_strlit("Moderate rain");
    reveal_strlit("Heavy rain");
    reveal_strlit("Slight snow");
    reveal_strlit("Moderate snow");
    reveal_strlit("Heavy snow");
    reveal_strlit("Snow grains");
    reveal_strlit("Slight rain showers");
    reveal_strlit("Moderate rain showers");
    reveal_strlit("Violent rain showers");
    reveal_strlit("Slight snow showers");
    reveal_strlit("Heavy snow showers");
    reveal_strlit("Thunderstorm");
    reveal_strlit("Thunderstorm with slight hail");
    reveal_strlit("Thunderstorm with heavy hail");
    if is_described_wmo_code(code) {
        assert("Unknown"@.len() == 7);
        assert(wmo_text(code).len() != 7);
    }
}

/// The index bands are ordered: a higher index never falls in a better band.
pub proof fn lemma_aqi_band_monotone(a: u32, b: u32)
    requires
        a <= b,
    ensures
        aqi_band(a) <= aqi_band(b),
        aqi_band(a) <= 5,
{
}

/// Each band has a name of its own, so the label tells the band.
pub proof fn lemma_aqi_label_names_band(a: u32, b: u32)
    ensures
        aqi_band_name(aqi_band(a)) == aqi_band_name(aqi_band(b)) <==> aqi_band(a) == aqi_band(b),
{
    reveal_strlit("Good");
    reveal_strlit("Fair");
    reveal_strlit("Moderate");
    reveal_strlit("Poor");
    reveal_strlit("Very Poor");
    reveal_strlit("Extremely Poor");
    if aqi_band(a) != aqi_band(b) {
        assert("Good"@[0] == 'G' && "Fair"@[0] == 'F' && "Moderate"@[0] == 'M');
        assert("Poor"@[0] == 'P' && "Very Poor"@[0] == 'V' && "Extremely Poor"@[0] == 'E');
        assert(aqi_band_name(aqi_band(a))[0] != aqi_band_name(aqi_band(b))[0]);
    }
}

} // verus!
