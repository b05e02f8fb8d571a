use weather_poller::config::Output;
use weather_poller::config::default_delimiter;
use weather_poller::config::default_extension;
use weather_poller::pipeline::Action;
use weather_poller::pipeline::Event;
use weather_poller::pipeline::Outcome;
use weather_poller::pipeline::Pipeline;
use weather_poller::reading::Condition;
use weather_poller::reading::Measurements;
use weather_poller::reading::RawReading;

fn output() -> Output {
    Output {
        directory: "out".to_string(),
        delimiter: default_delimiter(),
        extension: default_extension(),
    }
}

fn reading_for(name: &str, dt: i64) -> RawReading {
    RawReading {
        name: name.to_string(),
        id: 1,
        latitude: "0".to_string(),
        longitude: "0".to_string(),
        weather: vec![Condition {
            main: "Clear".to_string(),
            description: "clear sky".to_string(),
            icon: "01d".to_string(),
        }],
        main: Measurements {
            temp: "1".to_string(),
            temp_min: "1".to_string(),
            temp_max: "1".to_string(),
            pressure: "1000".to_string(),
            humidity: "50".to_string(),
        },
        visibility: Some(1),
        wind_speed: "1".to_string(),
        wind_deg: "1".to_string(),
        clouds: "0".to_string(),
        rain: None,
        snow: None,
        country: None,
        sunrise: 0,
        sunset: 0,
        dt,
    }
}

fn expect_call(action: Action) -> u32 {
    match action {
        Action::Call(id) => id,
        _ => panic!("expected a call action"),
    }
}

#[test]
fn defaults_are_comma_and_csv() {
    assert_eq!(default_delimiter(), ',');
    assert_eq!(default_extension(), "csv");
}

#[test]
fn configuration_carries_the_working_set() {
    let cli = weather_poller::config::Cli { config_file: "weather.hcl".to_string() };
    assert_eq!(cli.config_file, "weather.hcl");
    let config = weather_poller::config::Config {
        api_key: "key".to_string(),
        city_ids: vec![2988507, 2950159],
        output: output(),
    };
    assert_eq!(config.city_ids, vec![2988507, 2950159]);
    let p = Pipeline::new(config.city_ids.clone(), output());
    assert!(!p.is_done());
}

#[test]
fn empty_entity_list_finishes_immediately() {
    let p = Pipeline::new(vec![], output());
    assert!(p.is_done());
}

#[test]
fn outcomes_keep_entity_order_despite_timeout_and_error() {
    // Entities [7, 8, 9]: 7 errors, 8 times out, 9 succeeds. Calls are
    // issued in exactly the configured order.
    let mut p = Pipeline::new(vec![7, 8, 9], output());
    assert!(!p.is_done());

    assert_eq!(expect_call(p.step(Event::Paced)), 7);
    let a = p.step(Event::Completed(Outcome::ApiError));
    assert!(matches!(a, Action::Pace));

    assert_eq!(expect_call(p.step(Event::Paced)), 8);
    let a = p.step(Event::Completed(Outcome::TimedOut));
    assert!(matches!(a, Action::Pace));

    assert_eq!(expect_call(p.step(Event::Paced)), 9);
    let a = p.step(Event::Completed(Outcome::Reading(reading_for("Oslo", 1700000000))));
    let probe_path = match a {
        Action::Probe(path) => path,
        _ => panic!("expected a probe action"),
    };
    assert_eq!(probe_path, "out/Oslo/2023.csv");

    let a = p.step(Event::Probed(false));
    match a {
        Action::Write(path, content) => {
            assert_eq!(path, "out/Oslo/2023.csv");
            assert!(content.starts_with("City,Description"));
            assert!(content.ends_with("\n"));
        }
        _ => panic!("expected a write action"),
    }

    let a = p.step(Event::Written(true));
    assert!(matches!(a, Action::Finished));
    assert!(p.is_done());
}

#[test]
fn every_call_is_preceded_by_a_pacing_wait() {
    // The machine only ever issues a call in answer to the pacing event.
    let mut p = Pipeline::new(vec![1, 2], output());
    assert_eq!(expect_call(p.step(Event::Paced)), 1);
    let a = p.step(Event::Completed(Outcome::TimedOut));
    assert!(matches!(a, Action::Pace));
    assert_eq!(expect_call(p.step(Event::Paced)), 2);
    let a = p.step(Event::Completed(Outcome::ApiError));
    assert!(matches!(a, Action::Finished));
}

#[test]
fn api_error_writes_nothing_and_cycle_proceeds() {
    // An API error for the first entity produces no probe and no write; the
    // next entity is still attempted and its write goes to its own partition.
    let mut p = Pipeline::new(vec![5, 6], output());
    assert_eq!(expect_call(p.step(Event::Paced)), 5);
    let a = p.step(Event::Completed(Outcome::ApiError));
    assert!(matches!(a, Action::Pace));

    assert_eq!(expect_call(p.step(Event::Paced)), 6);
    let a = p.step(Event::Completed(Outcome::Reading(reading_for("Lyon", 1700000000))));
    match a {
        Action::Probe(path) => assert_eq!(path, "out/Lyon/2023.csv"),
        _ => panic!("expected a probe action"),
    }
    let a = p.step(Event::Probed(true));
    match a {
        Action::Write(path, content) => {
            assert_eq!(path, "out/Lyon/2023.csv");
            // The partition was present: no header again, one data row.
            assert!(content.starts_with("Lyon,clear sky,"));
            assert_eq!(content.matches('\n').count(), 1);
        }
        _ => panic!("expected a write action"),
    }
    let a = p.step(Event::Written(true));
    assert!(matches!(a, Action::Finished));
}

#[test]
fn failed_write_still_moves_to_next_entity() {
    let mut p = Pipeline::new(vec![3, 4], output());
    assert_eq!(expect_call(p.step(Event::Paced)), 3);
    p.step(Event::Completed(Outcome::Reading(reading_for("Nice", 1700000000))));
    p.step(Event::Probed(false));
    let a = p.step(Event::Written(false));
    assert!(matches!(a, Action::Pace));
    assert_eq!(expect_call(p.step(Event::Paced)), 4);
}

#[test]
fn same_city_routes_by_year() {
    // 2023-11-14 and 2024-02-01: same entity, different UTC years, distinct
    // partitions; a same-year timestamp routes back to the first file.
    let rec_a = weather_poller::record::map(&reading_for("Paris", 1700000000));
    let rec_b = weather_poller::record::map(&reading_for("Paris", 1706745600));
    let rec_c = weather_poller::record::map(&reading_for("Paris", 1700003600));
    let path_a = rec_a.path("out", "csv");
    let path_b = rec_b.path("out", "csv");
    let path_c = rec_c.path("out", "csv");
    assert_ne!(path_a, path_b);
    assert_eq!(path_a, path_c);
    assert_eq!(path_b, "out/Paris/2024.csv");
}
