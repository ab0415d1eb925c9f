use cappie::Level;

#[test]
fn canonical_strings() {
    assert_eq!(Level::Trace.as_str(), "TRACE");
    assert_eq!(Level::Debug.as_str(), "DEBUG");
    assert_eq!(Level::Info.as_str(), "INFO");
    assert_eq!(Level::Warn.as_str(), "WARN");
    assert_eq!(Level::Error.as_str(), "ERROR");
    assert_eq!(Level::Fatal.as_str(), "FATAL");
}

#[test]
fn numeric_values() {
    assert_eq!(Level::Trace.value(), 10);
    assert_eq!(Level::Debug.value(), 20);
    assert_eq!(Level::Info.value(), 30);
    assert_eq!(Level::Warn.value(), 40);
    assert_eq!(Level::Error.value(), 50);
    assert_eq!(Level::Fatal.value(), 60);
}

#[test]
fn ordering_follows_values() {
    assert!(Level::Trace < Level::Debug);
    assert!(Level::Debug < Level::Info);
    assert!(Level::Info < Level::Warn);
    assert!(Level::Warn < Level::Error);
    assert!(Level::Error < Level::Fatal);
}

#[test]
fn parse_canonical() {
    assert_eq!(Level::from_str("TRACE"), Some(Level::Trace));
    assert_eq!(Level::from_str("DEBUG"), Some(Level::Debug));
    assert_eq!(Level::from_str("INFO"), Some(Level::Info));
    assert_eq!(Level::from_str("WARN"), Some(Level::Warn));
    assert_eq!(Level::from_str("ERROR"), Some(Level::Error));
    assert_eq!(Level::from_str("FATAL"), Some(Level::Fatal));
}

#[test]
fn parse_case_insensitive() {
    assert_eq!(Level::from_str("info"), Some(Level::Info));
    assert_eq!(Level::from_str("Info"), Some(Level::Info));
    assert_eq!(Level::from_str("wArN"), Some(Level::Warn));
    assert_eq!(Level::from_str("fatal"), Some(Level::Fatal));
}

#[test]
fn parse_rejects_everything_else() {
    assert_eq!(Level::from_str(""), None);
    assert_eq!(Level::from_str("INFOS"), None);
    assert_eq!(Level::from_str("IN FO"), None);
    assert_eq!(Level::from_str("warning"), None);
    assert_eq!(Level::from_str("10"), None);
}

#[test]
fn string_round_trip() {
    for level in [
        Level::Trace,
        Level::Debug,
        Level::Info,
        Level::Warn,
        Level::Error,
        Level::Fatal,
    ] {
        assert_eq!(Level::from_str(level.as_str()), Some(level));
    }
}
