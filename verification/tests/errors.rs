use config_loader::error::ConfigError;

#[test]
fn message_of_a_carried_failure_is_its_text() {
    assert_eq!(ConfigError::Io("permission denied".to_string()).message(), "permission denied");
    assert_eq!(
        ConfigError::Decode("missing field `port`".to_string()).message(),
        "missing field `port`"
    );
    assert_eq!(ConfigError::Encode("unsupported type".to_string()).message(), "unsupported type");
    assert_eq!(ConfigError::Io(String::new()).message(), "");
}

#[test]
fn message_of_an_unsupported_format_is_fixed() {
    assert_eq!(ConfigError::UnsupportedFormat.message(), "Unsupported file format");
}

#[test]
fn errors_compare_by_kind_and_message() {
    assert_eq!(ConfigError::Io("a".to_string()), ConfigError::Io("a".to_string()));
    assert_ne!(ConfigError::Io("a".to_string()), ConfigError::Io("b".to_string()));
    assert_ne!(ConfigError::Io("a".to_string()), ConfigError::Decode("a".to_string()));
    assert_ne!(ConfigError::Decode("a".to_string()), ConfigError::Encode("a".to_string()));
    assert_ne!(ConfigError::Encode(String::new()), ConfigError::UnsupportedFormat);
}
