use readwise_reader_tui::config::{merge_config, AppConfig, ConfigError};

#[test]
fn default_config_has_no_token_and_inbox() {
    let c = AppConfig::default();
    assert_eq!(c.token, "");
    assert_eq!(c.default_location, "new");
}

fn some(x: &str) -> Option<String> {
    Some(x.to_string())
}

#[test]
fn flags_override_stored() {
    let c = merge_config(some("file"), some("later"), some("flag"), some("feed")).unwrap();
    assert_eq!(c.token, "flag");
    assert_eq!(c.default_location, "feed");
}

#[test]
fn stored_used_without_flags() {
    let c = merge_config(some("file"), some("later"), None, None).unwrap();
    assert_eq!(c.token, "file");
    assert_eq!(c.default_location, "later");
}

#[test]
fn defaults_fill_in_without_stored() {
    let c = merge_config(None, None, some("t"), None).unwrap();
    assert_eq!(c.token, "t");
    assert_eq!(c.default_location, "new");
}

#[test]
fn stored_location_alone_outranks_default() {
    let c = merge_config(None, some("later"), some("abc"), None).unwrap();
    assert_eq!(c.token, "abc");
    assert_eq!(c.default_location, "later");
}

#[test]
fn stored_token_alone_is_enough() {
    let c = merge_config(some("abc"), None, None, None).unwrap();
    assert_eq!(c.token, "abc");
    assert_eq!(c.default_location, "new");
}

#[test]
fn missing_token_is_refused() {
    assert_eq!(merge_config(None, None, None, None).unwrap_err(), ConfigError::MissingToken);
    assert_eq!(merge_config(some(""), some("later"), None, None).unwrap_err(), ConfigError::MissingToken);
    assert_eq!(merge_config(some("file"), some("later"), some(""), None).unwrap_err(), ConfigError::MissingToken);
}

#[test]
fn missing_token_message() {
    assert_eq!(
        ConfigError::MissingToken.message(),
        "Readwise API token is missing. Please provide it via READWISE_TOKEN env var, --token flag, or in config.toml"
    );
}
