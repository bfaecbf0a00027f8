use zero_gesture::log_level::{
    level_from_name, parse_log_level, resolve_log_level, LevelFilter, DEFAULT_LOG_LEVEL,
};

#[test]
fn parse_log_level_supports_case_insensitive_values() {
    assert_eq!(parse_log_level("TRACE"), Some(LevelFilter::Trace));
    assert_eq!(parse_log_level("debug"), Some(LevelFilter::Debug));
    assert_eq!(parse_log_level("Info"), Some(LevelFilter::Info));
    assert_eq!(parse_log_level("warn"), Some(LevelFilter::Warn));
    assert_eq!(parse_log_level("error"), Some(LevelFilter::Error));
    assert_eq!(parse_log_level("off"), Some(LevelFilter::Off));
}

#[test]
fn parse_log_level_trims_whitespace_and_rejects_unknown_values() {
    assert_eq!(parse_log_level("  debug  "), Some(LevelFilter::Debug));
    assert_eq!(parse_log_level("verbose"), None);
    assert_eq!(parse_log_level(""), None);
}

#[test]
fn resolve_log_level_falls_back_to_info() {
    assert_eq!(DEFAULT_LOG_LEVEL, LevelFilter::Info);
    assert_eq!(resolve_log_level(None), LevelFilter::Info);
    assert_eq!(resolve_log_level(Some("\twarn\n")), LevelFilter::Warn);
    assert_eq!(resolve_log_level(Some("loud")), LevelFilter::Info);
}

#[test]
fn level_names_are_matched_whole_and_untrimmed() {
    assert_eq!(level_from_name("OFF"), Some(LevelFilter::Off));
    assert_eq!(level_from_name(" off"), None);
    assert_eq!(level_from_name("of"), None);
    assert_eq!(level_from_name("offf"), None);
    assert_eq!(level_from_name("ınfo"), None);
}
