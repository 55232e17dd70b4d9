use weather_report::dates::{format_date, format_two_digits, format_u32};

#[test]
fn formats_plain_numbers() {
    assert_eq!(format_u32(0), "0");
    assert_eq!(format_u32(7), "7");
    assert_eq!(format_u32(907), "907");
    assert_eq!(format_u32(2024), "2024");
}

#[test]
fn pads_to_two_digits() {
    assert_eq!(format_two_digits(0), "00");
    assert_eq!(format_two_digits(3), "03");
    assert_eq!(format_two_digits(15), "15");
}

#[test]
fn formats_dates() {
    assert_eq!(format_date(2024, 3, 15), "2024-03-15");
    assert_eq!(format_date(1943, 12, 5), "1943-12-05");
}

#[test]
fn leap_day_passes_through_unadjusted() {
    // Feb 29 is queried as-is even for a historical year that is not a leap
    // year; the archive decides what to answer.
    assert_eq!(format_date(1943, 2, 29), "1943-02-29");
}
