//! What the tool asks of the services: the checks on its parameters, the
//! unit system, the request URLs and the reading of the HTTP status.
use vstd::prelude::*;
use vstd::string::StringSliceAdditionalSpecFns;
use crate::percent::{percent_encode, url_encode};
use crate::text::{decimal_string, decimal_text};

verus! {

/// The message with which a request without a city is refused.
pub open spec fn empty_city_message() -> Seq<char> {
    "'city' must not be empty"@
}

/// Refuses an empty city name.
pub fn check_city(city: &str) -> (r: Result<(), String>)
    ensures
        r is Ok <==> city@.len() > 0,
        r matches Err(e) ==> e@ == empty_city_message(),
{
    if city.is_empty() {
        Err("'city' must not be empty".to_owned())
    } else {
        Ok(())
    }
}

/// The unit system that applies: the one asked for, else `metric`.
pub open spec fn units_text(units: Option<Seq<char>>) -> Seq<char> {
    match units {
        Some(u) => u,
        None => "metric"@,
    }
}

/// The unit system that applies: the one asked for, else `metric`.
pub fn effective_units<'a>(units: Option<&'a str>) -> (out: &'a str)
    ensures
        out@ == units_text(
            match units {
                Some(u) => Some(u@),
                None => None,
            },
        ),
{
    match units {
        Some(u) => u,
        None => "metric",
    }
}

/// The temperature unit that the weather service is asked for.
pub open spec fn temperature_unit_text(units: Seq<char>) -> Seq<char> {
    if units == "imperial"@ {
        "fahrenheit"@
    } else {
        "celsius"@
    }
}

/// The wind-speed unit that the weather service is asked for.
pub open spec fn wind_speed_unit_text(units: Seq<char>) -> Seq<char> {
    if units == "imperial"@ {
        "mph"@
    } else {
        "ms"@
    }
}

fn is_imperial(units: &str) -> (b: bool)
    ensures
        b == (units@ == "imperial"@),
{
    let asked: String = units.to_owned();
    let imperial: String = "imperial".to_owned();
    asked == imperial
}

/// `fahrenheit` for the imperial system, `celsius` for any other.
pub fn temperature_unit(units: &str) -> (out: &'static str)
    ensures
        out@ == temperature_unit_text(units@),
{
    if is_imperial(units) {
        "fahrenheit"
    } else {
        "celsius"
    }
}

/// `mph` for the imperial system, `ms` for any other.
pub fn wind_speed_unit(units: &str) -> (out: &'static str)
    ensures
        out@ == wind_speed_unit_text(units@),
{
    if is_imperial(units) {
        "mph"
    } else {
        "ms"
    }
}

/// The two units always follow the same system: Fahrenheit goes with miles
/// per hour, and only the imperial system asks for them.
pub proof fn lemma_units_agree(units: Seq<char>)
    ensures
        temperature_unit_text(units) == "fahrenheit"@ <==> units == "imperial"@,
        wind_speed_unit_text(units) == "mph"@ <==> units == "imperial"@,
{
    reveal_strlit("fahrenheit");
    reveal_strlit("celsius");
    reveal_strlit("mph");
    reveal_strlit("ms");
    assert("fahrenheit"@.len() != "celsius"@.len());
    assert("mph"@.len() != "ms"@.len());
}

/// The query that looks a city up in the geocoding service: at most one
/// result, in English, and restricted to a country when a non-empty country
/// code is given.
pub open spec fn geocode_url_text(city: &str, country_code: Option<&str>) -> Seq<char> {
    "https://geocoding-api.open-meteo.com/v1/search?name="@ + percent_encode(city.spec_bytes())
        + "&count=1&language=en&format=json"@ + match country_code {
        Some(cc) => if cc@.len() > 0 {
            "&countryCode="@ + percent_encode(cc.spec_bytes())
        } else {
            Seq::empty()
        },
        None => Seq::empty(),
    }
}

/// Builds the geocoding query for a city.
pub fn geocode_url(city: &str, country_code: Option<&str>) -> (url: String)
    ensures
        url@ == geocode_url_text(city, country_code),
{
    let mut url = "https://geocoding-api.open-meteo.com/v1/search?name=".to_owned();
    let name = url_encode(city);
    url.append(name.as_str());
    url.append("&count=1&language=en&format=json");
    if let Some(cc) = country_code {
        if !cc.is_empty() {
            url.append("&countryCode=");
            let code = url_encode(cc);
            url.append(code.as_str());
        }
    }
    url
}

/// The query for the current conditions at a place, whose coordinates are
/// given as written in decimal.
pub open spec fn current_weather_url_text(latitude: Seq<char>, longitude: Seq<char>, units: Seq<char>) -> Seq<char> {
    current_query_head(latitude, longitude) + "&temperature_unit="@ + temperature_unit_text(units)
        + "&wind_speed_unit="@ + wind_speed_unit_text(units)
}

/// The part of the current-conditions query before its units: the place and
/// the measurements asked for.
pub open spec fn current_query_head(latitude: Seq<char>, longitude: Seq<char>) -> Seq<char> {
    "https://api.open-meteo.com/v1/forecast?latitude="@ + latitude + "&longitude="@ + longitude
        + "&current=temperature_2m,apparent_temperature,relative_humidity_2m,weather_code,wind_speed_10m,wind_direction_10m,cloud_cover,surface_pressure"@
}

/// Builds the query for the current conditions.
pub fn current_weather_url(latitude: &str, longitude: &str, units: &str) -> (url: String)
    ensures
        url@ == current_weather_url_text(latitude@, longitude@, units@),
{
    let mut url = "https://api.open-meteo.com/v1/forecast?latitude=".to_owned();
    url.append(latitude);
    url.append("&longitude=");
    url.append(longitude);
    url.append("&current=temperature_2m,apparent_temperature,relative_humidity_2m,weather_code,wind_speed_10m,wind_direction_10m,cloud_cover,surface_pressure");
    url.append("&temperature_unit=");
    url.append(temperature_unit(units));
    url.append("&wind_speed_unit=");
    url.append(wind_speed_unit(units));
    url
}

/// Both weather queries ask for the same units, and for Celsius and metres
/// per second unless the imperial system is asked for (then Fahrenheit and
/// miles per hour).
pub proof fn lemma_weather_query_units(latitude: Seq<char>, longitude: Seq<char>, units: Seq<char>)
    ensures
        current_weather_url_text(latitude, longitude, units) == current_query_head(latitude, longitude)
            + "&temperature_unit="@ + (if units == "imperial"@ { "fahrenheit"@ } else { "celsius"@ })
            + "&wind_speed_unit="@ + (if units == "imperial"@ { "mph"@ } else { "ms"@ }),
        forecast_url_text(latitude, longitude, units) == forecast_query_head(latitude, longitude)
            + "&temperature_unit="@ + (if units == "imperial"@ { "fahrenheit"@ } else { "celsius"@ })
            + "&wind_speed_unit="@ + (if units == "imperial"@ { "mph"@ } else { "ms"@ })
            + "&forecast_days=5"@,
{
}

/// The query for a five-day daily forecast at a place.
pub open spec fn forecast_url_text(latitude: Seq<char>, longitude: Seq<char>, units: Seq<char>) -> Seq<char> {
    forecast_query_head(latitude, longitude) + "&temperature_unit="@ + temperature_unit_text(units)
        + "&wind_speed_unit="@ + wind_speed_unit_text(units) + "&forecast_days=5"@
}

/// The part of the forecast query before its units: the place and the daily
/// series asked for.
pub open spec fn forecast_query_head(latitude: Seq<char>, longitude: Seq<char>) -> Seq<char> {
    "https://api.open-meteo.com/v1/forecast?latitude="@ + latitude + "&longitude="@ + longitude
        + "&daily=temperature_2m_max,temperature_2m_min,weather_code,wind_speed_10m_max,precipitation_probability_max"@
}

/// Builds the query for the five-day forecast.
pub fn forecast_url(latitude: &str, longitude: &str, units: &str) -> (url: String)
    ensures
        url@ == forecast_url_text(latitude@, longitude@, units@),
{
    let mut url = "https://api.open-meteo.com/v1/forecast?latitude=".to_owned();
    url.append(latitude);
    url.append("&longitude=");
    url.append(longitude);
    url.append("&daily=temperature_2m_max,temperature_2m_min,weather_code,wind_speed_10m_max,precipitation_probability_max");
    url.append("&temperature_unit=");
    url.append(temperature_unit(units));
    url.append("&wind_speed_unit=");
    url.append(wind_speed_unit(units));
    url.append("&forecast_days=5");
    url
}

/// The query for the current air pollution at a place.
pub open spec fn air_quality_url_text(latitude: Seq<char>, longitude: Seq<char>) -> Seq<char> {
    "https://air-quality-api.open-meteo.com/v1/air-quality?latitude="@ + latitude + "&longitude="@
        + longitude + "&current=pm10,pm2_5,carbon_monoxide,nitrogen_dioxide,ozone,european_aqi"@
}

/// Builds the query for the current air pollution.
pub fn air_quality_url(latitude: &str, longitude: &str) -> (url: String)
    ensures
        url@ == air_quality_url_text(latitude@, longitude@),
{
    let mut url = "https://air-quality-api.open-meteo.com/v1/air-quality?latitude=".to_owned();
    url.append(latitude);
    url.append("&longitude=");
    url.append(longitude);
    url.append("&current=pm10,pm2_5,carbon_monoxide,nitrogen_dioxide,ozone,european_aqi");
    url
}

/// The message with which an answer outside the 2xx range is refused.
pub open spec fn api_error_text(status: u16, body: Seq<char>) -> Seq<char> {
    "API error (HTTP "@ + decimal_text(status as nat) + "): "@ + body
}

/// Accepts an answer whose HTTP status is in the 2xx range; refuses any
/// other, quoting the status and the body.
pub fn check_status(status: u16, body: &str) -> (r: Result<(), String>)
    ensures
        r is Ok <==> 200 <= status < 300,
        r matches Err(e) ==> e@ == api_error_text(status, body@),
{
    if status < 200 || status >= 300 {
        let mut message = "API error (HTTP ".to_owned();
        let code = decimal_string(status);
        message.append(code.as_str());
        message.append("): ");
        message.append(body);
        Err(message)
    } else {
        Ok(())
    }
}

} // verus!
