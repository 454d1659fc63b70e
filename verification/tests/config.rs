use rig_montreal_lancedb::log_level::{parse_log_level, LogLevel};
use rig_montreal_lancedb::startup::{startup, Config, StartupError};

#[test]
fn level_names_parse_case_insensitively() {
    assert_eq!(parse_log_level("error"), Some(LogLevel::Error));
    assert_eq!(parse_log_level("ERROR"), Some(LogLevel::Error));
    assert_eq!(parse_log_level("warn"), Some(LogLevel::Warn));
    assert_eq!(parse_log_level("Warn"), Some(LogLevel::Warn));
    assert_eq!(parse_log_level("info"), Some(LogLevel::Info));
    assert_eq!(parse_log_level("iNfO"), Some(LogLevel::Info));
    assert_eq!(parse_log_level("debug"), Some(LogLevel::Debug));
    assert_eq!(parse_log_level("DEBUG"), Some(LogLevel::Debug));
    assert_eq!(parse_log_level("trace"), Some(LogLevel::Trace));
    assert_eq!(parse_log_level("TrAcE"), Some(LogLevel::Trace));
}

#[test]
fn level_numerals_parse_one_through_five() {
    assert_eq!(parse_log_level("1"), Some(LogLevel::Error));
    assert_eq!(parse_log_level("2"), Some(LogLevel::Warn));
    assert_eq!(parse_log_level("3"), Some(LogLevel::Info));
    assert_eq!(parse_log_level("4"), Some(LogLevel::Debug));
    assert_eq!(parse_log_level("5"), Some(LogLevel::Trace));
    assert_eq!(parse_log_level("+3"), Some(LogLevel::Info));
    assert_eq!(parse_log_level("03"), Some(LogLevel::Info));
    assert_eq!(parse_log_level("0005"), Some(LogLevel::Trace));
}

#[test]
fn unrecognized_tokens_are_rejected() {
    assert_eq!(parse_log_level(""), None);
    assert_eq!(parse_log_level("+"), None);
    assert_eq!(parse_log_level("0"), None);
    assert_eq!(parse_log_level("6"), None);
    assert_eq!(parse_log_level("10"), None);
    assert_eq!(parse_log_level("99999999999999999999999999"), None);
    assert_eq!(parse_log_level(" info"), None);
    assert_eq!(parse_log_level("info "), None);
    assert_eq!(parse_log_level("inf"), None);
    assert_eq!(parse_log_level("warning"), None);
    assert_eq!(parse_log_level("+error"), None);
}

#[test]
fn missing_api_key_blocks_startup() {
    assert_eq!(startup(None, None), Err(StartupError::MissingApiKey));
    assert_eq!(
        startup(None, Some(String::from("info"))),
        Err(StartupError::MissingApiKey)
    );
}

#[test]
fn invalid_log_level_blocks_startup_before_the_key_is_checked() {
    assert_eq!(
        startup(Some(String::from("sk-test")), Some(String::from("loud"))),
        Err(StartupError::InvalidLogLevel)
    );
    assert_eq!(
        startup(None, Some(String::from("loud"))),
        Err(StartupError::InvalidLogLevel)
    );
}

#[test]
fn startup_defaults_the_log_level_to_info() {
    let config: Config = startup(Some(String::from("sk-test")), None).unwrap();
    assert_eq!(config.api_key, "sk-test");
    assert_eq!(config.log_level, LogLevel::Info);
}

#[test]
fn startup_keeps_a_recognized_log_level() {
    let config: Config = startup(
        Some(String::from("sk-test")),
        Some(String::from("DEBUG")),
    )
    .unwrap();
    assert_eq!(config.api_key, "sk-test");
    assert_eq!(config.log_level, LogLevel::Debug);
}
