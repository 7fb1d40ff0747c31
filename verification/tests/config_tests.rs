use afrasyab::config::{
    is_super_admin, parse_usize, Config, ConfigError, EnvSnapshot, EnvVar, IntErrorKind, TelegramMode,
};
use afrasyab::scratch_disk::parse_scratch_thresholds_mb;
use afrasyab::upload::{DEFAULT_MAX_FILE_BYTES, DEFAULT_UPLOAD_CHUNK_BYTES};
use base64::Engine;

fn required_env(key_b64: &str) -> EnvSnapshot {
    EnvSnapshot {
        telegram_bot_token: Some("test-token".into()),
        super_admin_telegram_id: Some("42".into()),
        google_client_id: Some("client-id".into()),
        google_client_secret: Some("client-secret".into()),
        public_base_url: Some("https://example.com".into()),
        token_encryption_key: Some(key_b64.into()),
        database_url: Some("sqlite::memory:".into()),
        ..EnvSnapshot::default()
    }
}

fn key7() -> String {
    base64::engine::general_purpose::STANDARD.encode([7u8; 32])
}

#[test]
fn from_env_parses_required_and_defaults() {
    let env = required_env(&key7());
    let config = Config::from_env_values(&env).expect("config should parse");

    assert_eq!(config.telegram_bot_token, "test-token");
    assert_eq!(config.super_admin_telegram_id, 42);
    assert_eq!(config.public_base_url, "https://example.com");
    assert_eq!(config.token_encryption_key, [7u8; 32]);
    assert_eq!(config.http_bind, "0.0.0.0:8080");
    assert_eq!(config.max_playlist_items, 25);
    assert_eq!(config.max_concurrent_jobs, 4);
    assert!(matches!(config.telegram_mode, TelegramMode::Polling));
    assert!(config.telegram_webhook_secret.is_none());
    assert_eq!(config.scratch_thresholds.min_free_bytes, 512 * 1024 * 1024);
}

#[test]
fn scratch_threshold_defaults() {
    let config = Config::from_env_values(&required_env(&key7())).expect("config");
    assert_eq!(config.scratch_thresholds.min_free_bytes, 512 * 1024 * 1024);
}

#[test]
fn from_env_rejects_wrong_key_length() {
    let short_key = base64::engine::general_purpose::STANDARD.encode([1u8; 16]);
    let err = Config::from_env_values(&required_env(&short_key)).unwrap_err();
    assert!(err.message().contains("32 bytes"), "unexpected error: {}", err.message());
}

#[test]
fn telegram_mode_defaults_to_polling() {
    let config = Config::from_env_values(&required_env(&key7())).expect("config");
    assert!(matches!(config.telegram_mode, TelegramMode::Polling));
    assert!(config.telegram_webhook_secret.is_none());
}

#[test]
fn telegram_mode_webhook_requires_secret() {
    let mut env = required_env(&key7());
    env.telegram_mode = Some("webhook".into());
    let err = Config::from_env_values(&env).unwrap_err();
    assert!(err.message().contains("TELEGRAM_WEBHOOK_SECRET"), "{}", err.message());
}

#[test]
fn telegram_mode_webhook_rejects_invalid_secret() {
    let mut env = required_env(&key7());
    env.telegram_mode = Some("webhook".into());
    env.telegram_webhook_secret = Some("bad secret!".into());
    let err = Config::from_env_values(&env).unwrap_err();
    assert!(err.message().contains("TELEGRAM_WEBHOOK_SECRET"), "{}", err.message());
}

#[test]
fn telegram_mode_webhook_accepts_valid_secret() {
    let mut env = required_env(&key7());
    env.telegram_mode = Some("webhook".into());
    env.telegram_webhook_secret = Some("aB3-_valid".into());
    let config = Config::from_env_values(&env).expect("config");
    assert!(matches!(config.telegram_mode, TelegramMode::Webhook));
    assert_eq!(config.telegram_webhook_secret.as_deref(), Some("aB3-_valid"));
}

#[test]
fn drive_upload_chunk_must_be_valid_multiple() {
    let mut env = required_env(&key7());
    env.drive_upload_chunk_bytes = Some("100000".into());
    let err = Config::from_env_values(&env).unwrap_err();
    assert!(err.message().contains("DRIVE_UPLOAD_CHUNK_BYTES"));
}

#[test]
fn telegram_mode_rejects_unknown() {
    let mut env = required_env(&key7());
    env.telegram_mode = Some("socket".into());
    let err = Config::from_env_values(&env).unwrap_err();
    assert!(err.message().contains("TELEGRAM_MODE"), "{}", err.message());
}

#[test]
fn super_admin_matches_config() {
    let config = Config {
        telegram_bot_token: "t".into(),
        super_admin_telegram_id: 99,
        google_client_id: "id".into(),
        google_client_secret: "secret".into(),
        public_base_url: "https://example.com".into(),
        token_encryption_key: [0u8; 32],
        database_url: "sqlite::memory:".into(),
        http_bind: "0.0.0.0:8080".into(),
        max_playlist_items: 25,
        max_concurrent_jobs: 4,
        telegram_mode: TelegramMode::Polling,
        telegram_webhook_secret: None,
        scratch_thresholds: parse_scratch_thresholds_mb(512, 1024),
        max_file_bytes: DEFAULT_MAX_FILE_BYTES,
        drive_upload_chunk_bytes: DEFAULT_UPLOAD_CHUNK_BYTES,
    };
    assert!(is_super_admin(99, &config));
    assert!(!is_super_admin(100, &config));
}

#[test]
fn missing_variables_are_reported_in_reading_order() {
    let mut env = required_env(&key7());
    env.telegram_bot_token = None;
    env.database_url = None;
    assert_eq!(
        Config::from_env_values(&env).unwrap_err(),
        ConfigError::Missing(EnvVar::TelegramBotToken)
    );
    let env = EnvSnapshot::default();
    let err = Config::from_env_values(&env).unwrap_err();
    assert_eq!(err, ConfigError::Missing(EnvVar::TokenEncryptionKey));
    assert_eq!(
        err.message(),
        "missing TOKEN_ENCRYPTION_KEY (set in .env or export it before running afrasyab)"
    );
}

#[test]
fn trailing_slashes_and_mode_case() {
    let mut env = required_env(&format!("  {}\n", key7()));
    env.public_base_url = Some("https://example.com///".into());
    env.telegram_mode = Some("POLLING".into());
    env.max_file_bytes = Some("+1024".into());
    let config = Config::from_env_values(&env).unwrap();
    assert_eq!(config.public_base_url, "https://example.com");
    assert_eq!(config.max_file_bytes, 1024);
}

#[test]
fn numeric_errors() {
    let mut env = required_env(&key7());
    env.max_file_bytes = Some("0".into());
    assert_eq!(Config::from_env_values(&env).unwrap_err(), ConfigError::ZeroMaxFileBytes);
    let mut env = required_env(&key7());
    env.super_admin_telegram_id = Some("abc".into());
    assert_eq!(Config::from_env_values(&env).unwrap_err(), ConfigError::InvalidAdminId);
    assert_eq!(
        Config::from_env_values(&env).unwrap_err().message(),
        "SUPER_ADMIN_TELEGRAM_ID must be a numeric Telegram user id"
    );
    let mut env = required_env(&key7());
    env.max_playlist_items = Some("-1".into());
    assert_eq!(
        Config::from_env_values(&env).unwrap_err(),
        ConfigError::InvalidCount(EnvVar::MaxPlaylistItems, IntErrorKind::InvalidDigit)
    );
    assert_eq!(Config::from_env_values(&env).unwrap_err().message(), "invalid digit found in string");
    let mut env = required_env(&key7());
    env.max_concurrent_jobs = Some(String::new());
    assert_eq!(
        Config::from_env_values(&env).unwrap_err().message(),
        "cannot parse integer from empty string"
    );
    let mut env = required_env(&key7());
    env.max_file_bytes = Some("x".into());
    assert_eq!(Config::from_env_values(&env).unwrap_err().message(), "invalid MAX_FILE_BYTES");
    let mut env = required_env(&key7());
    env.token_encryption_key = Some("not base64!".into());
    assert_eq!(Config::from_env_values(&env).unwrap_err(), ConfigError::InvalidKeyEncoding);
    let mut env = required_env(&key7());
    env.telegram_mode = Some("Socket".into());
    assert_eq!(
        Config::from_env_values(&env).unwrap_err().message(),
        "invalid TELEGRAM_MODE=\"socket\" (use \"polling\" or \"webhook\")"
    );
}

#[test]
fn encryption_key_may_be_given_in_hex() {
    let config = Config::from_env_values(&required_env(&"07".repeat(32))).expect("hex key");
    assert_eq!(config.token_encryption_key, [7u8; 32]);
    let mixed = format!("  {}  ", "aB".repeat(32));
    let config = Config::from_env_values(&required_env(&mixed)).expect("hex key, either case");
    assert_eq!(config.token_encryption_key, [0xab; 32]);
    // 63 digits are not a hex key; read as base64 they do not decode.
    let err = Config::from_env_values(&required_env(&"0".repeat(63))).unwrap_err();
    assert_eq!(err.message(), "TOKEN_ENCRYPTION_KEY must be valid base64");
}

#[test]
fn invalid_mode_is_quoted_with_escapes() {
    let mut env = required_env(&key7());
    env.telegram_mode = Some("we\"b\\Hook\n".into());
    assert_eq!(
        Config::from_env_values(&env).unwrap_err().message(),
        "invalid TELEGRAM_MODE=\"we\\\"b\\\\hook\\n\" (use \"polling\" or \"webhook\")"
    );
}

#[test]
fn count_parsing_matches_usize_from_str() {
    let cases = [
        "", "+", "-", "0", "+7", "-7", "12", "1a", "a1", " 5", "5 ", "++5", "007",
        "18446744073709551615", "18446744073709551616", "99999999999999999999x", "x99999999999999999999",
        "1844674407370955161x",
    ];
    for case in cases {
        let ours = parse_usize(case).map_err(|k| k.message().to_string());
        let std_result = case.parse::<usize>().map_err(|e| e.to_string());
        assert_eq!(ours, std_result, "input {case:?}");
    }
}
