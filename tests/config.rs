use guardian::config::{parse_unsigned, Config, Timeout};

#[test]
fn test_read_var_with_default() {
    let config = Config::new(vec![]);
    assert_eq!(config.read_var_with_default("DUMMY", 2), Some(2));
    assert_eq!(config.read_text_with_default("DUMMY", "Hi"), "Hi");
}

#[test]
fn configured_values_win_over_defaults() {
    let config = Config::new(vec![
        ("TELEGRAM_POOL_THREAD_NUMBER".to_string(), "8".to_string()),
        ("TELEGRAM_BASE_URL".to_string(), "http://localhost/bot".to_string()),
        ("TELEGRAM_BOT_TOKEN".to_string(), "SECRET-REDACTED".to_string()),
    ]);
    assert_eq!(config.telegram_pool_thread_number(), Some(8));
    assert_eq!(config.telegram_base_url(), "http://localhost/bot");
    assert_eq!(config.telegram_bot_token(), Some("SECRET-REDACTED".to_string()));
    assert_eq!(config.request_timeout_in_seconds().map(|t| t.seconds()), Some(5));
}

#[test]
fn defaults_apply_when_unset() {
    let config = Config::new(vec![]);
    assert_eq!(config.telegram_pool_thread_number(), Some(3));
    assert_eq!(config.telegram_base_url(), "https://api.telegram.org/bot");
    assert_eq!(config.telegram_bot_token(), None);
    assert_eq!(Config::time_format(), "%Y-%m-%d %H:%M:%S");
}

#[test]
fn unparsable_number_is_reported() {
    let config = Config::new(vec![("REQUEST_TIMEOUT".to_string(), "soon".to_string())]);
    assert!(config.request_timeout_in_seconds().is_none());
}

#[test]
fn unsigned_parsing_edges() {
    assert_eq!(parse_unsigned("0"), Some(0));
    assert_eq!(parse_unsigned("+42"), Some(42));
    assert_eq!(parse_unsigned(""), None);
    assert_eq!(parse_unsigned("+"), None);
    assert_eq!(parse_unsigned("-1"), None);
    assert_eq!(parse_unsigned("18446744073709551615"), Some(u64::MAX));
    assert_eq!(parse_unsigned("18446744073709551616"), None);
}

#[test]
fn timeout_keeps_its_seconds() {
    let t = Timeout::new(7);
    assert_eq!(t.seconds(), 7);
}
