use tweet_service::Timestamp;

fn ts(year: i32, month: u8, day: u8, hour: u8, minute: u8, second: u8) -> Timestamp {
    Timestamp { year, month, day, hour, minute, second }
}

#[test]
fn renders_every_field_zero_padded() {
    assert_eq!(ts(987, 6, 5, 4, 3, 2).to_iso_string(), "0987-06-05T04:03:02");
}

#[test]
fn renders_the_largest_representable_instant() {
    assert_eq!(ts(9999, 12, 31, 23, 59, 59).to_iso_string(), "9999-12-31T23:59:59");
}

#[test]
fn renders_two_digit_fields_without_padding_loss() {
    assert_eq!(ts(2024, 11, 30, 19, 45, 10).to_iso_string(), "2024-11-30T19:45:10");
}

#[test]
fn renders_the_year_zero_edge() {
    assert_eq!(ts(0, 1, 1, 0, 0, 0).to_iso_string(), "0000-01-01T00:00:00");
}
