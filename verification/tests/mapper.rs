use weather_poller::reading::Condition;
use weather_poller::reading::Measurements;
use weather_poller::reading::Precipitation;
use weather_poller::reading::RawReading;

fn condition(main: &str, description: &str, icon: &str) -> Condition {
    Condition { main: main.to_string(), description: description.to_string(), icon: icon.to_string() }
}

fn paris_reading() -> RawReading {
    RawReading {
        name: "Paris".to_string(),
        id: 2988507,
        latitude: "48.85".to_string(),
        longitude: "2.35".to_string(),
        weather: vec![condition("Clear", "clear sky", "01d")],
        main: Measurements {
            temp: "15.2".to_string(),
            temp_min: "14".to_string(),
            temp_max: "16".to_string(),
            pressure: "1012".to_string(),
            humidity: "60".to_string(),
        },
        visibility: Some(10000),
        wind_speed: "3.1".to_string(),
        wind_deg: "90".to_string(),
        clouds: "5".to_string(),
        rain: None,
        snow: None,
        country: Some("FR".to_string()),
        sunrise: 1699946400,
        sunset: 1699980000,
        dt: 1700000000,
    }
}

#[test]
fn paris_scenario_maps_expected_record() {
    let rec = weather_poller::record::map(&paris_reading());
    assert_eq!(rec.city, "Paris");
    assert_eq!(rec.description, "clear sky");
    assert_eq!(rec.icon, "01d");
    assert_eq!(rec.main_weather, "Clear");
    assert_eq!(rec.city_id, 2988507);
    assert_eq!(rec.visibility, 10000);
    assert_eq!(rec.humidity, "60");
    assert_eq!(rec.pressure, "1012");
    assert_eq!(rec.time, "2023-11-14 22:13:20");
    assert_eq!(rec.unix_utc, 1700000000);
    assert_eq!(rec.rain_1h, "0");
    assert_eq!(rec.rain_3h, "0");
    assert_eq!(rec.snow_1h, "0");
    assert_eq!(rec.snow_3h, "0");
    assert_eq!(rec.country, "FR");
    assert_eq!(rec.clouds, "5");
    assert_eq!(rec.wind_direction, "90");
    assert_eq!(rec.wind_speed, "3.1");
    assert_eq!(rec.latitude, "48.85");
    assert_eq!(rec.longitude, "2.35");
    assert_eq!(rec.year, 2023);
}

#[test]
fn paris_scenario_routes_to_year_partition() {
    let rec = weather_poller::record::map(&paris_reading());
    let path = rec.path("output", "csv");
    assert_eq!(path, "output/Paris/2023.csv");
}

#[test]
fn absent_optionals_materialize_as_zero_or_empty() {
    let mut reading = paris_reading();
    reading.visibility = None;
    reading.country = None;
    let rec = weather_poller::record::map(&reading);
    assert_eq!(rec.visibility, 0);
    assert_eq!(rec.country, "");
}

#[test]
fn precipitation_subfields_default_independently() {
    let mut reading = paris_reading();
    reading.rain = Some(Precipitation { one_hour: Some("0.4".to_string()), three_hour: None });
    reading.snow = Some(Precipitation { one_hour: None, three_hour: Some("2.5".to_string()) });
    let rec = weather_poller::record::map(&reading);
    assert_eq!(rec.rain_1h, "0.4");
    assert_eq!(rec.rain_3h, "0");
    assert_eq!(rec.snow_1h, "0");
    assert_eq!(rec.snow_3h, "2.5");
}

#[test]
fn first_condition_descriptor_is_authoritative() {
    let mut reading = paris_reading();
    reading.weather = vec![
        condition("Rain", "light rain", "10d"),
        condition("Clouds", "broken clouds", "04d"),
    ];
    let rec = weather_poller::record::map(&reading);
    assert_eq!(rec.main_weather, "Rain");
    assert_eq!(rec.description, "light rain");
    assert_eq!(rec.icon, "10d");
}

#[test]
fn epoch_bounds_are_checked_exactly() {
    assert!(weather_poller::timetext::epoch_ok(0));
    assert!(weather_poller::timetext::epoch_ok(1700000000));
    assert!(weather_poller::timetext::epoch_ok(weather_poller::timetext::MIN_EPOCH));
    assert!(weather_poller::timetext::epoch_ok(weather_poller::timetext::MAX_EPOCH));
    assert!(!weather_poller::timetext::epoch_ok(weather_poller::timetext::MIN_EPOCH - 1));
    assert!(!weather_poller::timetext::epoch_ok(weather_poller::timetext::MAX_EPOCH + 1));
}

#[test]
fn unix_epoch_start_formats_as_nineteen_seventy() {
    let mut reading = paris_reading();
    reading.dt = 0;
    let rec = weather_poller::record::map(&reading);
    assert_eq!(rec.time, "1970-01-01 00:00:00");
    assert_eq!(rec.year, 1970);
}
