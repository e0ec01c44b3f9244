use weather::report::{
    air_quality, count_reading, current_weather, forecast, resolve_place, AirReadings,
    CurrentReadings, DailySeries, GeoCandidate, Place, ToolResponse,
};

fn candidate(name: Option<&str>, country: Option<&str>, lat: Option<f64>, lon: Option<f64>) -> GeoCandidate<f64> {
    GeoCandidate {
        name: name.map(|s| s.to_string()),
        country: country.map(|s| s.to_string()),
        latitude: lat,
        longitude: lon,
    }
}

#[test]
fn resolve_place_takes_first_result() {
    let results = vec![
        candidate(Some("London"), Some("United Kingdom"), Some(51.5), Some(-0.12)),
        candidate(Some("London"), Some("Canada"), Some(42.98), Some(-81.23)),
    ];
    let place = resolve_place("london", Some(results), 0.0).unwrap();
    assert_eq!(place.name, "London");
    assert_eq!(place.country, "United Kingdom");
    assert_eq!(place.latitude, 51.5);
    assert_eq!(place.longitude, -0.12);
}

#[test]
fn resolve_place_fills_missing_fields() {
    let place = resolve_place("Atlantis", Some(vec![candidate(None, None, None, Some(3.0))]), 0.0).unwrap();
    assert_eq!(place.name, "Atlantis");
    assert_eq!(place.country, "");
    assert_eq!(place.latitude, 0.0);
    assert_eq!(place.longitude, 3.0);
}

#[test]
fn resolve_place_refuses_unknown_city() {
    assert_eq!(
        resolve_place::<f64>("Nowhere", None, 0.0).err(),
        Some("City not found: Nowhere".to_string())
    );
    assert_eq!(
        resolve_place::<f64>("Nowhere", Some(Vec::new()), 0.0).err(),
        Some("City not found: Nowhere".to_string())
    );
}

#[test]
fn count_reading_defaults_and_truncates() {
    assert_eq!(count_reading(None), 0);
    assert_eq!(count_reading(Some(87)), 87);
    assert_eq!(count_reading(Some((1u64 << 32) + 5)), 5);
    assert_eq!(count_reading(Some(u64::MAX)), u32::MAX);
}

fn place() -> Place<f64> {
    Place { name: "Tokyo".to_string(), country: "Japan".to_string(), latitude: 35.68, longitude: 139.69 }
}

#[test]
fn current_weather_report() {
    let readings = CurrentReadings {
        temperature: Some(21.5),
        feels_like: None,
        humidity: Some(64),
        pressure: Some(1008.2),
        weather_code: Some(61),
        wind_speed: Some(3.4),
        wind_direction: Some(270),
        cloud_cover: None,
    };
    let w = current_weather(place(), readings, "metric", 0.0);
    assert_eq!(w.city, "Tokyo");
    assert_eq!(w.country, "Japan");
    assert_eq!(w.latitude, 35.68);
    assert_eq!(w.longitude, 139.69);
    assert_eq!(w.temperature, 21.5);
    assert_eq!(w.feels_like, 0.0);
    assert_eq!(w.humidity, 64);
    assert_eq!(w.pressure, 1008.2);
    assert_eq!(w.description, "Slight rain");
    assert_eq!(w.wind_speed, 3.4);
    assert_eq!(w.wind_direction, 270);
    assert_eq!(w.clouds_percent, 0);
    assert_eq!(w.units, "metric");
}

#[test]
fn current_weather_without_code_is_clear_sky() {
    let readings = CurrentReadings {
        temperature: None,
        feels_like: None,
        humidity: None,
        pressure: None,
        weather_code: None,
        wind_speed: None,
        wind_direction: None,
        cloud_cover: None,
    };
    let w = current_weather(place(), readings, "imperial", 0.0);
    assert_eq!(w.description, "Clear sky");
    assert_eq!(w.units, "imperial");
}

#[test]
fn forecast_has_one_entry_per_date() {
    let series = DailySeries {
        dates: vec![Some("2024-05-01".to_string()), None, Some("2024-05-03".to_string())],
        temp_max: vec![Some(20.0), Some(21.0)],
        temp_min: vec![Some(10.0), None, Some(12.0), Some(99.0)],
        weather_codes: vec![Some(3), Some(95)],
        wind_speed_max: vec![],
        precipitation_probability_max: vec![Some(40), Some(80), Some(100)],
    };
    let f = forecast(place(), series, "metric", 0.0);
    assert_eq!(f.city, "Tokyo");
    assert_eq!(f.country, "Japan");
    assert_eq!(f.units, "metric");
    assert_eq!(f.entries.len(), 3);
    assert_eq!(f.entries[0].date, "2024-05-01");
    assert_eq!(f.entries[1].date, "");
    assert_eq!(f.entries[2].date, "2024-05-03");
    assert_eq!(f.entries[0].temp_max, 20.0);
    assert_eq!(f.entries[2].temp_max, 0.0);
    assert_eq!(f.entries[1].temp_min, 0.0);
    assert_eq!(f.entries[2].temp_min, 12.0);
    assert_eq!(f.entries[0].description, "Overcast");
    assert_eq!(f.entries[1].description, "Thunderstorm");
    assert_eq!(f.entries[2].description, "Clear sky");
    assert_eq!(f.entries[0].wind_speed_max, 0.0);
    assert_eq!(f.entries[2].precipitation_probability_max, 100);
}

#[test]
fn forecast_without_dates_is_empty() {
    let series: DailySeries<f64> = DailySeries {
        dates: vec![],
        temp_max: vec![Some(1.0)],
        temp_min: vec![],
        weather_codes: vec![],
        wind_speed_max: vec![],
        precipitation_probability_max: vec![],
    };
    assert!(forecast(place(), series, "metric", 0.0).entries.is_empty());
}

#[test]
fn air_quality_report() {
    let readings = AirReadings {
        european_aqi: Some(58),
        pm2_5: Some(12.5),
        pm10: None,
        nitrogen_dioxide: Some(20.1),
        ozone: Some(60.0),
        carbon_monoxide: Some(230.0),
    };
    let a = air_quality(-34.6, -58.4, readings, 0.0);
    assert_eq!(a.lat, -34.6);
    assert_eq!(a.lon, -58.4);
    assert_eq!(a.european_aqi, 58);
    assert_eq!(a.aqi_label, "Moderate");
    assert_eq!(a.pm2_5, 12.5);
    assert_eq!(a.pm10, 0.0);
    assert_eq!(a.nitrogen_dioxide, 20.1);
    assert_eq!(a.ozone, 60.0);
    assert_eq!(a.carbon_monoxide, 230.0);
}

#[test]
fn air_quality_without_index_is_good() {
    let readings = AirReadings {
        european_aqi: None,
        pm2_5: None,
        pm10: None,
        nitrogen_dioxide: None,
        ozone: None,
        carbon_monoxide: None,
    };
    let a = air_quality(0.0, 0.0, readings, 0.0);
    assert_eq!(a.european_aqi, 0);
    assert_eq!(a.aqi_label, "Good");
}

#[test]
fn tool_response_holds_exactly_one_side() {
    let ok = ToolResponse::from_result(Ok("{}".to_string()));
    assert_eq!(ok.output, Some("{}".to_string()));
    assert_eq!(ok.error, None);
    let err = ToolResponse::from_result(Err("boom".to_string()));
    assert_eq!(err.output, None);
    assert_eq!(err.error, Some("boom".to_string()));
}
