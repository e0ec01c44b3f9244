use weather::{european_aqi_label, wmo_description};

#[test]
fn test_wmo_description_known() {
    assert_eq!(wmo_description(0), "Clear sky");
    assert_eq!(wmo_description(3), "Overcast");
    assert_eq!(wmo_description(61), "Slight rain");
    assert_eq!(wmo_description(95), "Thunderstorm");
}

#[test]
fn test_wmo_description_unknown() {
    assert_eq!(wmo_description(42), "Unknown");
}

#[test]
fn wmo_description_full_table() {
    let table = [
        (0, "Clear sky"),
        (1, "Mainly clear"),
        (2, "Partly cloudy"),
        (3, "Overcast"),
        (45, "Fog"),
        (48, "Depositing rime fog"),
        (51, "Light drizzle"),
        (53, "Moderate drizzle"),
        (55, "Dense drizzle"),
        (61, "Slight rain"),
        (63, "Moderate rain"),
        (65, "Heavy rain"),
        (71, "Slight snow"),
        (73, "Moderate snow"),
        (75, "Heavy snow"),
        (77, "Snow grains"),
        (80, "Slight rain showers"),
        (81, "Moderate rain showers"),
        (82, "Violent rain showers"),
        (85, "Slight snow showers"),
        (86, "Heavy snow showers"),
        (95, "Thunderstorm"),
        (96, "Thunderstorm with slight hail"),
        (99, "Thunderstorm with heavy hail"),
    ];
    for (code, text) in table {
        assert_eq!(wmo_description(code), text);
        assert_ne!(wmo_description(code), "Unknown");
    }
}

#[test]
fn wmo_description_unlisted_codes_are_unknown() {
    for code in [4u32, 44, 46, 50, 56, 100, 1000, u32::MAX] {
        assert_eq!(wmo_description(code), "Unknown");
    }
}

#[test]
fn test_european_aqi_label() {
    assert_eq!(european_aqi_label(10), "Good");
    assert_eq!(european_aqi_label(30), "Fair");
    assert_eq!(european_aqi_label(50), "Moderate");
    assert_eq!(european_aqi_label(70), "Poor");
    assert_eq!(european_aqi_label(90), "Very Poor");
    assert_eq!(european_aqi_label(150), "Extremely Poor");
}

#[test]
fn european_aqi_label_band_edges() {
    assert_eq!(european_aqi_label(0), "Good");
    assert_eq!(european_aqi_label(20), "Good");
    assert_eq!(european_aqi_label(21), "Fair");
    assert_eq!(european_aqi_label(40), "Fair");
    assert_eq!(european_aqi_label(41), "Moderate");
    assert_eq!(european_aqi_label(60), "Moderate");
    assert_eq!(european_aqi_label(61), "Poor");
    assert_eq!(european_aqi_label(80), "Poor");
    assert_eq!(european_aqi_label(81), "Very Poor");
    assert_eq!(european_aqi_label(100), "Very Poor");
    assert_eq!(european_aqi_label(101), "Extremely Poor");
    assert_eq!(european_aqi_label(u32::MAX), "Extremely Poor");
}

#[test]
fn european_aqi_label_never_improves_as_index_rises() {
    let order = ["Good", "Fair", "Moderate", "Poor", "Very Poor", "Extremely Poor"];
    let rank = |aqi: u32| order.iter().position(|l| *l == european_aqi_label(aqi)).unwrap();
    let mut last = 0;
    for aqi in 0..=600u32 {
        let r = rank(aqi);
        assert!(r >= last);
        last = r;
    }
}
