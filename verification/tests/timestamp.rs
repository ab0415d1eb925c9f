use cappie::Timestamp;

fn noon() -> Timestamp {
    Timestamp::new(2025, 6, 21, 12, 34, 56, 7890)
}

#[test]
fn default_pattern() {
    assert_eq!(noon().format("%H:%M:%S"), "12:34:56");
}

#[test]
fn date_tokens() {
    assert_eq!(noon().format("%Y-%m-%d"), "2025-06-21");
}

#[test]
fn fractional_seconds_are_zero_padded() {
    assert_eq!(noon().format("%S.%f"), "56.007890");
}

#[test]
fn literal_text_passes_through() {
    assert_eq!(noon().format("at %H o'clock"), "at 12 o'clock");
}

#[test]
fn unrecognized_token_passes_through() {
    assert_eq!(noon().format("%q%Z"), "%q%Z");
}

#[test]
fn percent_escapes() {
    assert_eq!(noon().format("100%%"), "100%");
    assert_eq!(noon().format("end%"), "end%");
}

#[test]
fn empty_pattern() {
    assert_eq!(noon().format(""), "");
}

#[test]
fn small_parts_are_zero_padded() {
    let ts = Timestamp::new(7, 1, 2, 3, 4, 5, 6);
    assert_eq!(ts.format("%Y-%m-%d %H:%M:%S.%f"), "0007-01-02 03:04:05.000006");
}

#[test]
fn standardized_form() {
    assert_eq!(noon().rfc3339(), "2025-06-21T12:34:56Z");
}

#[test]
fn now_is_well_formed() {
    let ts = Timestamp::now();
    assert!(ts.year <= 9999);
    assert!((1..=12).contains(&ts.month));
    assert!((1..=31).contains(&ts.day));
    assert!(ts.hour <= 23);
    assert!(ts.minute <= 59);
    assert!(ts.second <= 59);
    assert!(ts.micros <= 999_999);
    // a current date, not a constant one
    assert!(ts.year >= 2025);
}
