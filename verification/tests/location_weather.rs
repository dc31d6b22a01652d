use barnaby::weather::{weather_code_to_description, Coordinate, LocationError, LocationResolver,
    WeatherService, DEFAULT_LATITUDE_MICRODEG, DEFAULT_LONGITUDE_MICRODEG};

#[test]
fn weather_code_table() {
    assert_eq!(weather_code_to_description(0), "Clear sky");
    assert_eq!(weather_code_to_description(1), "Partly cloudy");
    assert_eq!(weather_code_to_description(3), "Partly cloudy");
    assert_eq!(weather_code_to_description(45), "Foggy");
    assert_eq!(weather_code_to_description(48), "Foggy");
    assert_eq!(weather_code_to_description(51), "Drizzle");
    assert_eq!(weather_code_to_description(57), "Drizzle");
    assert_eq!(weather_code_to_description(61), "Rain");
    assert_eq!(weather_code_to_description(67), "Rain");
    assert_eq!(weather_code_to_description(71), "Snow");
    assert_eq!(weather_code_to_description(77), "Snow");
    assert_eq!(weather_code_to_description(80), "Rain showers");
    assert_eq!(weather_code_to_description(82), "Rain showers");
    assert_eq!(weather_code_to_description(85), "Snow showers");
    assert_eq!(weather_code_to_description(86), "Snow showers");
    assert_eq!(weather_code_to_description(95), "Thunderstorm");
    assert_eq!(weather_code_to_description(99), "Thunderstorm");
    assert_eq!(weather_code_to_description(44), "Unknown");
    assert_eq!(weather_code_to_description(100), "Unknown");
}

#[test]
fn resolve_with_place_needs_a_geocoding_hit() {
    let c = Coordinate::new(48_856_600, 2_352_200);
    assert_eq!(LocationResolver::resolve(true, Some(c), None), Ok(c));
    assert_eq!(
        LocationResolver::resolve(true, None, Some(c)),
        Err(LocationError::NotFound)
    );
}

#[test]
fn resolve_without_place_never_errors() {
    let ip = Coordinate::new(40_712_800, -74_006_000);
    assert_eq!(LocationResolver::resolve(false, None, Some(ip)), Ok(ip));
    let fallback = LocationResolver::resolve(false, None, None).unwrap();
    assert_eq!(fallback.latitude_microdeg, DEFAULT_LATITUDE_MICRODEG);
    assert_eq!(fallback.longitude_microdeg, DEFAULT_LONGITUDE_MICRODEG);
}

#[test]
fn coordinate_validity_ranges() {
    assert!(Coordinate::new(90_000_000, 180_000_000).is_valid());
    assert!(Coordinate::new(-90_000_000, -180_000_000).is_valid());
    assert!(!Coordinate::new(90_000_001, 0).is_valid());
    assert!(!Coordinate::new(0, -180_000_001).is_valid());
    assert!(Coordinate::default_fallback().is_valid());
}

#[test]
fn geocode_url_percent_encodes_the_name() {
    let svc = WeatherService::new();
    assert_eq!(
        svc.geocode_url("New York"),
        "https://geocoding-api.open-meteo.com/v1/search?name=New%20York&count=1"
    );
    assert_eq!(
        svc.geocode_url("Paris"),
        "https://geocoding-api.open-meteo.com/v1/search?name=Paris&count=1"
    );
}

#[test]
fn forecast_url_renders_decimal_degrees() {
    let svc = WeatherService::new();
    let london = Coordinate::default_fallback();
    assert_eq!(
        svc.forecast_url(london),
        "https://api.open-meteo.com/v1/forecast?latitude=51.5074&longitude=-0.1278&current=temperature_2m,weather_code,wind_speed_10m"
    );
    let whole = Coordinate::new(7_000_000, -120_000_000);
    assert_eq!(
        svc.forecast_url(whole),
        "https://api.open-meteo.com/v1/forecast?latitude=7&longitude=-120&current=temperature_2m,weather_code,wind_speed_10m"
    );
    let tiny = Coordinate::new(1_000, 7_500_000);
    assert_eq!(
        svc.forecast_url(tiny),
        "https://api.open-meteo.com/v1/forecast?latitude=0.001&longitude=7.5&current=temperature_2m,weather_code,wind_speed_10m"
    );
}

#[test]
fn observation_interpretation_uses_the_code_table() {
    let svc = WeatherService::new();
    let w = svc.interpret_observation(15, 63, 10);
    assert_eq!(w.temperature, 15);
    assert_eq!(w.description, "Rain");
    assert_eq!(w.wind_speed, 10);
}
