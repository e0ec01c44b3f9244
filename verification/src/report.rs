//! What the tool answers: the readings that the services return, put
//! together into reports.
//!
//! Coordinates and measurements are carried as an opaque value type `N`
//! that is only ever moved, never computed with; missing measurements are
//! replaced by the caller's `zero`.
use vstd::prelude::*;
use crate::codes::{aqi_band, aqi_band_name, european_aqi_label, wmo_description, wmo_text};

verus! {

/// A reading when it is present, else the given default.
pub open spec fn or_default<T>(reading: Option<T>, default: T) -> T {
    match reading {
        Some(v) => v,
        None => default,
    }
}

/// The text of an optional string, else the given default.
pub open spec fn text_or(reading: Option<String>, default: Seq<char>) -> Seq<char> {
    match reading {
        Some(s) => s@,
        None => default,
    }
}

/// A whole-number reading as the report holds it: absent counts as zero, and
/// the value is cut to its low 32 bits.
pub open spec fn count_value(reading: Option<u64>) -> u32 {
    (or_default(reading, 0u64) as int % 0x1_0000_0000) as u32
}

/// Turns a whole-number reading into the report's 32-bit field.
pub fn count_reading(reading: Option<u64>) -> (r: u32)
    ensures
        r == count_value(reading),
{
    let v: u64 = match reading {
        Some(v) => v,
        None => 0,
    };
    assert((v as u32) as int == v as int % 0x1_0000_0000) by (bit_vector);
    v as u32
}

/// One place that the geocoding service returned, field by field as far as
/// each field was present.
pub struct GeoCandidate<N> {
    pub name: Option<String>,
    pub country: Option<String>,
    pub latitude: Option<N>,
    pub longitude: Option<N>,
}

/// The place that a city name was resolved to.
pub struct Place<N> {
    pub name: String,
    pub country: String,
    pub latitude: N,
    pub longitude: N,
}

/// The message with which a city that the geocoding service does not know is
/// refused.
pub open spec fn not_found_text(city: Seq<char>) -> Seq<char> {
    "City not found: "@ + city
}

/// Resolves a city from the geocoding service's results (`None` when the
/// answer held no result list): the first result, with the asked name when it
/// has none, no country when it has none, and `zero` for a missing coordinate.
pub fn resolve_place<N: Copy>(city: &str, results: Option<Vec<GeoCandidate<N>>>, zero: N) -> (r: Result<Place<N>, String>)
    ensures
        r is Ok <==> (results matches Some(v) && v.len() > 0),
        r matches Err(e) ==> e@ == not_found_text(city@),
        r matches Ok(p) ==> {
            let first = results->Some_0[0];
            &&& p.name@ == text_or(first.name, city@)
            &&& p.country@ == text_or(first.country, Seq::empty())
            &&& p.latitude == or_default(first.latitude, zero)
            &&& p.longitude == or_default(first.longitude, zero)
        },
{
    match results {
        Some(mut found) => {
            if found.len() == 0 {
                let mut message = "City not found: ".to_owned();
                message.append(city);
                Err(message)
            } else {
                let first = found.swap_remove(0);
                let name = match first.name {
                    Some(n) => n,
                    None => city.to_owned(),
                };
                let country = match first.country {
                    Some(c) => c,
                    None => String::new(),
                };
                let latitude = match first.latitude {
                    Some(v) => v,
                    None => zero,
                };
                let longitude = match first.longitude {
                    Some(v) => v,
                    None => zero,
                };
                Ok(Place { name, country, latitude, longitude })
            }
        },
        None => {
            let mut message = "City not found: ".to_owned();
            message.append(city);
            Err(message)
        },
    }
}

/// The current conditions as the weather service returned them, field by
/// field as far as each field was present.
pub struct CurrentReadings<N> {
    pub temperature: Option<N>,
    pub feels_like: Option<N>,
    pub humidity: Option<u64>,
    pub pressure: Option<N>,
    pub weather_code: Option<u64>,
    pub wind_speed: Option<N>,
    pub wind_direction: Option<u64>,
    pub cloud_cover: Option<u64>,
}

/// The report on the current conditions at a place.
pub struct CurrentWeather<N> {
    pub city: String,
    pub country: String,
    pub latitude: N,
    pub longitude: N,
    pub temperature: N,
    pub feels_like: N,
    pub humidity: u32,
    pub pressure: N,
    pub description: String,
    pub wind_speed: N,
    pub wind_direction: u32,
    pub clouds_percent: u32,
    pub units: String,
}

/// Puts the current conditions at a place into a report.
pub fn current_weather<N: Copy>(place: Place<N>, readings: CurrentReadings<N>, units: &str, zero: N) -> (w: CurrentWeather<N>)
    ensures
        w.city == place.name,
        w.country == place.country,
        w.latitude == place.latitude,
        w.longitude == place.longitude,
        w.temperature == or_default(readings.temperature, zero),
        w.feels_like == or_default(readings.feels_like, zero),
        w.humidity == count_value(readings.humidity),
        w.pressure == or_default(readings.pressure, zero),
        w.description@ == wmo_text(count_value(readings.weather_code)),
        w.wind_speed == or_default(readings.wind_speed, zero),
        w.wind_direction == count_value(readings.wind_direction),
        w.clouds_percent == count_value(readings.cloud_cover),
        w.units@ == units@,
{
    let code = count_reading(readings.weather_code);
    CurrentWeather {
        city: place.name,
        country: place.country,
        latitude: place.latitude,
        longitude: place.longitude,
        temperature: match readings.temperature {
            Some(v) => v,
            None => zero,
        },
        feels_like: match readings.feels_like {
            Some(v) => v,
            None => zero,
        },
        humidity: count_reading(readings.humidity),
        pressure: match readings.pressure {
            Some(v) => v,
            None => zero,
        },
        description: wmo_description(code),
        wind_speed: match readings.wind_speed {
            Some(v) => v,
            None => zero,
        },
        wind_direction: count_reading(readings.wind_direction),
        clouds_percent: count_reading(readings.cloud_cover),
        units: units.to_owned(),
    }
}

/// The reading at a position of a daily series; `None` past its end.
pub open spec fn series_reading<T>(series: Seq<Option<T>>, i: int) -> Option<T> {
    if 0 <= i < series.len() {
        series[i]
    } else {
        None
    }
}

fn reading_at<T: Copy>(series: &Vec<Option<T>>, i: usize) -> (r: Option<T>)
    ensures
        r == series_reading(series@, i as int),
{
    if i < series.len() {
        series[i]
    } else {
        None
    }
}

/// The daily series of a forecast as the weather service returned them,
/// element by element as far as each element was present.
pub struct DailySeries<N> {
    pub dates: Vec<Option<String>>,
    pub temp_max: Vec<Option<N>>,
    pub temp_min: Vec<Option<N>>,
    pub weather_codes: Vec<Option<u64>>,
    pub wind_speed_max: Vec<Option<N>>,
    pub precipitation_probability_max: Vec<Option<u64>>,
}

/// The forecast for one day.
pub struct ForecastEntry<N> {
    pub date: String,
    pub temp_max: N,
    pub temp_min: N,
    pub description: String,
    pub wind_speed_max: N,
    pub precipitation_probability_max: u32,
}

/// The report on the coming days at a place.
pub struct Forecast<N> {
    pub city: String,
    pub country: String,
    pub units: String,
    pub entries: Vec<ForecastEntry<N>>,
}

/// The forecast for day `i` as read from the series: the `i`-th element of
/// each, a missing one replaced by `zero` (by the empty date, by code 0, by
/// probability 0).
pub open spec fn is_forecast_day<N>(entry: ForecastEntry<N>, series: DailySeries<N>, i: int, zero: N) -> bool {
    &&& entry.date@ == text_or(series.dates@[i], Seq::empty())
    &&& entry.temp_max == or_default(series_reading(series.temp_max@, i), zero)
    &&& entry.temp_min == or_default(series_reading(series.temp_min@, i), zero)
    &&& entry.description@ == wmo_text(count_value(series_reading(series.weather_codes@, i)))
    &&& entry.wind_speed_max == or_default(series_reading(series.wind_speed_max@, i), zero)
    &&& entry.precipitation_probability_max == count_value(
        series_reading(series.precipitation_probability_max@, i),
    )
}

/// A forecast day depends only on the elements at its own position: what
/// `is_forecast_day` asks of day `i` is what the `i`-th elements say.
pub proof fn lemma_forecast_day_reads_own_index<N>(entry: ForecastEntry<N>, series: DailySeries<N>, i: int, zero: N)
    requires
        0 <= i < series.dates@.len(),
        is_forecast_day(entry, series, i, zero),
    ensures
        entry.date@ == (if series.dates@[i] is Some { series.dates@[i]->Some_0@ } else { Seq::empty() })
            && entry.temp_max == (if i < series.temp_max@.len() && series.temp_max@[i] is Some { series.temp_max@[i]->Some_0 } else { zero })
            && entry.temp_min == (if i < series.temp_min@.len() && series.temp_min@[i] is Some { series.temp_min@[i]->Some_0 } else { zero })
            && entry.wind_speed_max == (if i < series.wind_speed_max@.len() && series.wind_speed_max@[i] is Some { series.wind_speed_max@[i]->Some_0 } else { zero })
            && entry.precipitation_probability_max as int == (if i < series.precipitation_probability_max@.len()
                && series.precipitation_probability_max@[i] is Some {
                series.precipitation_probability_max@[i]->Some_0 as int
            } else {
                0
            }) % 0x1_0000_0000
            && entry.description@ == wmo_text(
                ((if i < series.weather_codes@.len() && series.weather_codes@[i] is Some {
                    series.weather_codes@[i]->Some_0 as int
                } else {
                    0
                }) % 0x1_0000_0000) as u32,
            ),
{
}

/// Puts the daily series into a forecast report: one day per date, in the
/// order of the dates.
pub fn forecast<N: Copy>(place: Place<N>, series: DailySeries<N>, units: &str, zero: N) -> (f: Forecast<N>)
    ensures
        f.city == place.name,
        f.country == place.country,
        f.units@ == units@,
        f.entries.len() == series.dates.len(),
        forall|i: int| 0 <= i < f.entries.len() ==> is_forecast_day(#[trigger] f.entries@[i], series, i, zero),
        forall|i: int| #![trigger f.entries@[i]] 0 <= i < f.entries.len() ==> {
            f.entries@[i].date@ == (if series.dates@[i] is Some { series.dates@[i]->Some_0@ } else { Seq::empty() })
            && f.entries@[i].temp_max == (if i < series.temp_max@.len() && series.temp_max@[i] is Some { series.temp_max@[i]->Some_0 } else { zero })
            && f.entries@[i].temp_min == (if i < series.temp_min@.len() && series.temp_min@[i] is Some { series.temp_min@[i]->Some_0 } else { zero })
            && f.entries@[i].wind_speed_max == (if i < series.wind_speed_max@.len() && series.wind_speed_max@[i] is Some { series.wind_speed_max@[i]->Some_0 } else { zero })
            && f.entries@[i].precipitation_probability_max as int == (if i < series.precipitation_probability_max@.len()
                && series.precipitation_probability_max@[i] is Some {
                series.precipitation_probability_max@[i]->Some_0 as int
            } else {
                0
            }) % 0x1_0000_0000
            && f.entries@[i].description@ == wmo_text(
                ((if i < series.weather_codes@.len() && series.weather_codes@[i] is Some {
                    series.weather_codes@[i]->Some_0 as int
                } else {
                    0
                }) % 0x1_0000_0000) as u32,
            )
        },
{
    let mut entries: Vec<ForecastEntry<N>> = Vec::new();
    let days = series.dates.len();
    let mut i: usize = 0;
    while i < days
        invariant
            days == series.dates.len(),
            0 <= i <= days,
            entries.len() == i,
            forall|j: int| 0 <= j < i ==> is_forecast_day(#[trigger] entries@[j], series, j, zero),
            forall|j: int| #![trigger entries@[j]] 0 <= j < i ==> {
                entries@[j].date@ == (if series.dates@[j] is Some { series.dates@[j]->Some_0@ } else { Seq::empty() })
            && entries@[j].temp_max == (if j < series.temp_max@.len() && series.temp_max@[j] is Some { series.temp_max@[j]->Some_0 } else { zero })
            && entries@[j].temp_min == (if j < series.temp_min@.len() && series.temp_min@[j] is Some { series.temp_min@[j]->Some_0 } else { zero })
            && entries@[j].wind_speed_max == (if j < series.wind_speed_max@.len() && series.wind_speed_max@[j] is Some { series.wind_speed_max@[j]->Some_0 } else { zero })
            && entries@[j].precipitation_probability_max as int == (if j < series.precipitation_probability_max@.len()
                && series.precipitation_probability_max@[j] is Some {
                series.precipitation_probability_max@[j]->Some_0 as int
            } else {
                0
            }) % 0x1_0000_0000
            && entries@[j].description@ == wmo_text(
                ((if j < series.weather_codes@.len() && series.weather_codes@[j] is Some {
                    series.weather_codes@[j]->Some_0 as int
                } else {
                    0
                }) % 0x1_0000_0000) as u32,
            )
            },
        decreases days - i,
    {
        let date = match &series.dates[i] {
            Some(d) => d.clone(),
            None => String::new(),
        };
        let temp_max = match reading_at(&series.temp_max, i) {
            Some(v) => v,
            None => zero,
        };
        let temp_min = match reading_at(&series.temp_min, i) {
            Some(v) => v,
            None => zero,
        };
        let code = count_reading(reading_at(&series.weather_codes, i));
        let wind_speed_max = match reading_at(&series.wind_speed_max, i) {
            Some(v) => v,
            None => zero,
        };
        let precipitation = count_reading(reading_at(&series.precipitation_probability_max, i));
        let entry = ForecastEntry {
            date,
            temp_max,
            temp_min,
            description: wmo_description(code),
            wind_speed_max,
            precipitation_probability_max: precipitation,
        };
        entries.push(entry);
        proof {
            lemma_forecast_day_reads_own_index(entries@[i as int], series, i as int, zero);
        }
        i = i + 1;
    }
    Forecast { city: place.name, country: place.country, units: units.to_owned(), entries }
}

/// The current air pollution as the air-quality service returned it, field
/// by field as far as each field was present.
pub struct AirReadings<N> {
    pub european_aqi: Option<u64>,
    pub pm2_5: Option<N>,
    pub pm10: Option<N>,
    pub nitrogen_dioxide: Option<N>,
    pub ozone: Option<N>,
    pub carbon_monoxide: Option<N>,
}

/// The report on the current air pollution at a place.
pub struct AirQuality<N> {
    pub lat: N,
    pub lon: N,
    pub european_aqi: u32,
    pub aqi_label: String,
    pub pm2_5: N,
    pub pm10: N,
    pub nitrogen_dioxide: N,
    pub ozone: N,
    pub carbon_monoxide: N,
}

/// Puts the current air pollution at a place into a report, labelled by the
/// band of its European index.
pub fn air_quality<N: Copy>(lat: N, lon: N, readings: AirReadings<N>, zero: N) -> (a: AirQuality<N>)
    ensures
        a.lat == lat,
        a.lon == lon,
        a.european_aqi == count_value(readings.european_aqi),
        a.aqi_label@ == aqi_band_name(aqi_band(a.european_aqi)),
        a.pm2_5 == or_default(readings.pm2_5, zero),
        a.pm10 == or_default(readings.pm10, zero),
        a.nitrogen_dioxide == or_default(readings.nitrogen_dioxide, zero),
        a.ozone == or_default(readings.ozone, zero),
        a.carbon_monoxide == or_default(readings.carbon_monoxide, zero),
{
    let aqi = count_reading(readings.european_aqi);
    AirQuality {
        lat,
        lon,
        european_aqi: aqi,
        aqi_label: european_aqi_label(aqi),
        pm2_5: match readings.pm2_5 {
            Some(v) => v,
            None => zero,
        },
        pm10: match readings.pm10 {
            Some(v) => v,
            None => zero,
        },
        nitrogen_dioxide: match readings.nitrogen_dioxide {
            Some(v) => v,
            None => zero,
        },
        ozone: match readings.ozone {
            Some(v) => v,
            None => zero,
        },
        carbon_monoxide: match readings.carbon_monoxide {
            Some(v) => v,
            None => zero,
        },
    }
}

/// What the tool hands back to its host: either an output or an error.
pub struct ToolResponse {
    pub output: Option<String>,
    pub error: Option<String>,
}

impl ToolResponse {
    /// The response for the outcome of a request: the output when it
    /// succeeded, the error when it failed, never both.
    pub fn from_result(outcome: Result<String, String>) -> (resp: ToolResponse)
        ensures
            (resp.output is Some) != (resp.error is Some),
            outcome matches Ok(o) ==> resp.output == Some(o),
            outcome matches Err(e) ==> resp.error == Some(e),
    {
        match outcome {
            Ok(result) => ToolResponse { output: Some(result), error: None },
            Err(e) => ToolResponse { output: None, error: Some(e) },
        }
    }
}

} // verus!
