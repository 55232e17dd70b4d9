use weather_report::history::HistoricalPayload;
use weather_report::report::{CurrentPayload, ForecastPayload};
use weather_report::workflow::{
    produce_weather_report, resolve_location, FatalError, GeoPayload, WeatherPayload,
};

fn geo() -> GeoPayload {
    GeoPayload {
        ip: "203.0.113.7".to_string(),
        city: "Berlin".to_string(),
        region: "Berlin".to_string(),
        country: "DE".to_string(),
        loc: "52.52,13.40".to_string(),
    }
}

fn weather() -> WeatherPayload {
    WeatherPayload {
        current: CurrentPayload {
            temperature: Some("21.4".to_string()),
            windspeed: Some("9.8".to_string()),
            weathercode: Some(3),
        },
        daily: ForecastPayload {
            weathercode: vec![Some(1), Some(2), None],
            temperature_2m_max: vec![Some("10.0".to_string()), None, Some("12.0".to_string())],
            temperature_2m_min: vec![Some("1.0".to_string()), Some("2.0".to_string()), Some("3.0".to_string())],
        },
    }
}

// The schedule for 1951 is [1940, 1945, 1950]: three outcomes are owed.
fn outcomes() -> Vec<Result<HistoricalPayload, String>> {
    vec![
        Ok(HistoricalPayload { first_mean: Some("10.0".to_string()) }),
        Ok(HistoricalPayload { first_mean: None }),
        Ok(HistoricalPayload { first_mean: Some("12.5".to_string()) }),
    ]
}

#[test]
fn full_success_assembles_the_report() {
    let report = produce_weather_report(Ok(geo()), Ok(weather()), outcomes(), 1951, 3, 15)
        .unwrap();
    assert_eq!(report.ip, "203.0.113.7");
    assert_eq!(report.lat, "52.52");
    assert_eq!(report.lon, "13.40");
    assert_eq!(report.city, "Berlin");
    assert_eq!(report.region, "Berlin");
    assert_eq!(report.country, "DE");
    assert_eq!(report.temperature, "21.4");
    assert_eq!(report.windspeed, "9.8");
    assert_eq!(report.weathercode, 3);
    assert_eq!(report.week_weather_codes, vec![1, 2, 0]);
    assert_eq!(report.week_max_temperatures, vec!["10.0", "0", "12.0"]);
    assert_eq!(report.week_min_temperatures, vec!["1.0", "2.0", "3.0"]);
    assert_eq!(report.weather_history.len(), 3);
    assert_eq!(report.weather_history[0].year, 1940);
    assert_eq!(report.weather_history[0].date, "1940-03-15");
    assert_eq!(report.weather_history[0].mean_temperature, "10.0");
    assert_eq!(report.weather_history[1].mean_temperature, "N/A");
    assert_eq!(report.weather_history[2].year, 1950);
    assert!(report.errors.is_empty());
}

#[test]
fn workflow_is_idempotent_over_equal_responses() {
    let first = produce_weather_report(Ok(geo()), Ok(weather()), outcomes(), 1951, 3, 15);
    let second = produce_weather_report(Ok(geo()), Ok(weather()), outcomes(), 1951, 3, 15);
    assert_eq!(first, second);
}

#[test]
fn one_failed_historical_year_degrades_but_succeeds() {
    let mut outs = outcomes();
    outs[1] = Err("timeout".to_string());
    let report = produce_weather_report(Ok(geo()), Ok(weather()), outs, 1951, 3, 15).unwrap();
    assert_eq!(report.weather_history.len(), 2);
    assert_eq!(report.errors.len(), 1);
    assert_eq!(report.errors[0], "Error fetching historical data for 1945: timeout");
}

#[test]
fn missing_windspeed_is_reported_as_zero() {
    let mut w = weather();
    w.current.windspeed = None;
    let report = produce_weather_report(Ok(geo()), Ok(w), outcomes(), 1951, 3, 15).unwrap();
    assert_eq!(report.windspeed.parse::<f64>().unwrap(), 0.0);
}

#[test]
fn geolocation_failure_is_fatal() {
    let r = produce_weather_report(
        Err("no route to host".to_string()),
        Ok(weather()),
        outcomes(),
        1951,
        3,
        15,
    );
    match r {
        Err(FatalError::Geolocation(m)) => assert_eq!(m, "no route to host"),
        other => panic!("expected a fatal geolocation error, got {:?}", other),
    }
}

#[test]
fn resolve_location_rejects_before_any_fetch() {
    let r = resolve_location(Err("dns failure".to_string()));
    assert_eq!(r, Err(FatalError::Geolocation("dns failure".to_string())));

    let mut g = geo();
    g.loc = "52.52;13.40".to_string();
    let bad = g.loc.clone();
    let r = resolve_location(Ok(g));
    assert_eq!(r, Err(FatalError::MalformedLocation(bad)));
}

#[test]
fn malformed_coordinate_is_fatal() {
    let mut g = geo();
    g.loc = "1,2,3".to_string();
    let r = produce_weather_report(Ok(g), Ok(weather()), outcomes(), 1951, 3, 15);
    assert_eq!(r, Err(FatalError::MalformedLocation("1,2,3".to_string())));
}

#[test]
fn weather_fetch_failure_is_fatal() {
    let r = produce_weather_report(
        Ok(geo()),
        Err("bad gateway".to_string()),
        outcomes(),
        1951,
        3,
        15,
    );
    assert_eq!(r, Err(FatalError::WeatherFetch("bad gateway".to_string())));
}

#[test]
fn resolved_location_splits_the_coordinate() {
    let l = resolve_location(Ok(geo())).unwrap();
    assert_eq!(l.lat, "52.52");
    assert_eq!(l.lon, "13.40");
    assert_eq!(l.city, "Berlin");
}
