use weather_report::history::{
    collect_history, historical_sample, history_error_message, HistoricalPayload,
};

#[test]
fn missing_mean_temperature_becomes_placeholder() {
    let s = historical_sample(1953, 3, 15, HistoricalPayload { first_mean: None });
    assert_eq!(s.mean_temperature, "N/A");
    assert_eq!(s.date, "1953-03-15");
    assert_eq!(s.year, 1953);
}

#[test]
fn present_mean_temperature_is_kept_as_text() {
    let s = historical_sample(1983, 7, 2, HistoricalPayload { first_mean: Some("18.9".to_string()) });
    assert_eq!(s.mean_temperature, "18.9");
    assert_eq!(s.date, "1983-07-02");
}

#[test]
fn error_message_names_the_year_and_cause() {
    let m = history_error_message(1999, "connection refused".to_string());
    assert_eq!(m, "Error fetching historical data for 1999: connection refused");
}

#[test]
fn one_failed_year_gives_one_error_and_drops_one_sample() {
    let years = vec![1940, 1945, 1950];
    let outcomes = vec![
        Ok(HistoricalPayload { first_mean: Some("10.0".to_string()) }),
        Err("timeout".to_string()),
        Ok(HistoricalPayload { first_mean: Some("12.0".to_string()) }),
    ];
    let (samples, errors) = collect_history(&years, 3, 15, outcomes);
    assert_eq!(samples.len(), 2);
    assert_eq!(errors.len(), 1);
    assert_eq!(errors[0], "Error fetching historical data for 1945: timeout");
    assert_eq!(samples[0].year, 1940);
    assert_eq!(samples[1].year, 1950);
}

#[test]
fn samples_come_in_schedule_order() {
    let years = vec![1941, 1946, 1951, 1956];
    let outcomes = vec![
        Ok(HistoricalPayload { first_mean: Some("1.0".to_string()) }),
        Ok(HistoricalPayload { first_mean: None }),
        Ok(HistoricalPayload { first_mean: Some("3.0".to_string()) }),
        Ok(HistoricalPayload { first_mean: Some("4.0".to_string()) }),
    ];
    let (samples, errors) = collect_history(&years, 12, 31, outcomes);
    assert!(errors.is_empty());
    let sampled_years: Vec<i32> = samples.iter().map(|s| s.year).collect();
    assert_eq!(sampled_years, vec![1941, 1946, 1951, 1956]);
    assert_eq!(samples[1].mean_temperature, "N/A");
    assert_eq!(samples[3].date, "1956-12-31");
}

#[test]
fn all_failures_give_only_errors() {
    let years = vec![1949, 1954];
    let outcomes = vec![Err("a".to_string()), Err("b".to_string())];
    let (samples, errors) = collect_history(&years, 1, 1, outcomes);
    assert!(samples.is_empty());
    assert_eq!(errors.len(), 2);
    assert_eq!(errors[0], "Error fetching historical data for 1949: a");
    assert_eq!(errors[1], "Error fetching historical data for 1954: b");
}
