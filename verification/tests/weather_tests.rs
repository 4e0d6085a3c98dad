use yeye_floating_clock::weather::{resolve_location, weather_city, GeocodeResult, WeatherError};

#[test]
fn the_city_is_trimmed_and_must_not_be_empty() {
    assert_eq!(weather_city("  上海 "), Ok("上海"));
    assert_eq!(weather_city(" \t "), Err(WeatherError::EmptyCity));
    assert_eq!(weather_city(""), Err(WeatherError::EmptyCity));
}

#[test]
fn no_place_found_is_an_error() {
    assert!(matches!(resolve_location(None, "Atlantis"), Err(WeatherError::CityNotFound)));
}

#[test]
fn a_place_needs_both_coordinates() {
    let g = GeocodeResult {
        latitude_bits: Some(31.2f64.to_bits()),
        longitude_bits: None,
        name: None,
        country: None,
    };
    assert!(matches!(resolve_location(Some(g), "x"), Err(WeatherError::InvalidCoordinates)));
    let h = GeocodeResult { latitude_bits: None, longitude_bits: Some(1.0f64.to_bits()), name: None, country: None };
    assert!(matches!(resolve_location(Some(h), "x"), Err(WeatherError::InvalidCoordinates)));
}

#[test]
fn names_fall_back_to_the_query_and_an_empty_country() {
    let g = GeocodeResult {
        latitude_bits: Some(31.22f64.to_bits()),
        longitude_bits: Some(121.46f64.to_bits()),
        name: None,
        country: None,
    };
    let l = resolve_location(Some(g), "上海").ok().unwrap();
    assert_eq!(f64::from_bits(l.latitude_bits), 31.22);
    assert_eq!(f64::from_bits(l.longitude_bits), 121.46);
    assert_eq!(l.city, "上海");
    assert_eq!(l.country, "");
    let named = GeocodeResult {
        latitude_bits: Some(0u64),
        longitude_bits: Some(0u64),
        name: Some("Shanghai".into()),
        country: Some("中国".into()),
    };
    let m = resolve_location(Some(named), "sh").ok().unwrap();
    assert_eq!(m.city, "Shanghai");
    assert_eq!(m.country, "中国");
}
