use weather_report::schedule::historical_years;

#[test]
fn schedule_2024_starts_at_1943() {
    let years = historical_years(2024);
    assert_eq!(years[0], 1943);
    assert_eq!(years[1], 1948);
    assert_eq!(years.len(), 17);
    assert_eq!(*years.last().unwrap(), 2023);
}

#[test]
fn schedule_2024_full_listing() {
    let years = historical_years(2024);
    let expected = vec![
        1943, 1948, 1953, 1958, 1963, 1968, 1973, 1978, 1983, 1988, 1993, 1998, 2003, 2008,
        2013, 2018, 2023,
    ];
    assert_eq!(years, expected);
}

#[test]
fn schedule_is_strictly_increasing_step_five() {
    for year in [1941, 1960, 1999, 2000, 2024, 2025, 9999] {
        let years = historical_years(year);
        let start = 1940 + ((year - 1) % 10);
        if !years.is_empty() {
            assert_eq!(years[0], start);
            assert!(*years.last().unwrap() <= year - 1);
            assert!(*years.last().unwrap() + 5 > year - 1);
        }
        for w in years.windows(2) {
            assert_eq!(w[1], w[0] + 5);
        }
    }
}

#[test]
fn schedule_single_year() {
    assert_eq!(historical_years(1941), vec![1940]);
    assert_eq!(historical_years(1950), vec![1949]);
}

#[test]
fn schedule_empty_before_archive_era() {
    assert!(historical_years(1940).is_empty());
    assert!(historical_years(1900).is_empty());
}
