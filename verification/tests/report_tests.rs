use weather_report::report::{default_current, default_forecast, CurrentPayload, ForecastPayload};

#[test]
fn missing_windspeed_defaults_to_zero() {
    let c = default_current(CurrentPayload {
        temperature: Some("21.4".to_string()),
        windspeed: None,
        weathercode: Some(3),
    });
    assert_eq!(c.windspeed, "0");
    assert_eq!(c.windspeed.parse::<f64>().unwrap(), 0.0);
    assert_eq!(c.temperature, "21.4");
    assert_eq!(c.weathercode, 3);
}

#[test]
fn fully_missing_current_weather_defaults_everywhere() {
    let c = default_current(CurrentPayload { temperature: None, windspeed: None, weathercode: None });
    assert_eq!(c.temperature, "0");
    assert_eq!(c.windspeed, "0");
    assert_eq!(c.weathercode, 0);
}

#[test]
fn forecast_keeps_values_and_defaults_holes() {
    let w = default_forecast(ForecastPayload {
        weathercode: vec![Some(1), None, Some(61)],
        temperature_2m_max: vec![Some("10.1".to_string()), Some("11.2".to_string()), None],
        temperature_2m_min: vec![None, Some("2.0".to_string()), Some("3.5".to_string())],
    });
    assert_eq!(w.week_weather_codes, vec![1, 0, 61]);
    assert_eq!(w.week_max_temperatures, vec!["10.1", "11.2", "0"]);
    assert_eq!(w.week_min_temperatures, vec!["0", "2.0", "3.5"]);
}

#[test]
fn forecast_arrays_are_aligned_to_the_shortest() {
    let w = default_forecast(ForecastPayload {
        weathercode: vec![Some(1), Some(2), Some(3)],
        temperature_2m_max: vec![Some("1.0".to_string())],
        temperature_2m_min: vec![Some("0.1".to_string()), Some("0.2".to_string())],
    });
    assert_eq!(w.week_weather_codes.len(), 1);
    assert_eq!(w.week_max_temperatures.len(), 1);
    assert_eq!(w.week_min_temperatures.len(), 1);
}

#[test]
fn empty_forecast_payload_gives_empty_window() {
    let w = default_forecast(ForecastPayload {
        weathercode: vec![],
        temperature_2m_max: vec![],
        temperature_2m_min: vec![],
    });
    assert!(w.week_weather_codes.is_empty());
    assert!(w.week_max_temperatures.is_empty());
    assert!(w.week_min_temperatures.is_empty());
}
