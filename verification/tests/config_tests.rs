use vitality_bot::config::{parse_i64, parse_unsigned, Config, ConfigError, ConfigVars};
use vitality_bot::text::signed_to_string;

fn vars() -> ConfigVars {
    ConfigVars {
        pandascore_token: Some("ps-token".to_string()),
        vitality_team_id: Some("9565".to_string()),
        telegram_bot_token: Some("tg-token".to_string()),
        telegram_chat_id: Some("-100123".to_string()),
        poll_interval: None,
        morning_hour: None,
        timezone: None,
        port: None,
        state_path: None,
    }
}

#[test]
fn parse_i64_reads_decimal_numbers() {
    assert_eq!(parse_i64("123"), Some(123));
    assert_eq!(parse_i64("+5"), Some(5));
    assert_eq!(parse_i64("-17"), Some(-17));
    assert_eq!(parse_i64("007"), Some(7));
    assert_eq!(parse_i64("-9223372036854775808"), Some(i64::MIN));
    assert_eq!(parse_i64("9223372036854775807"), Some(i64::MAX));
}

#[test]
fn parse_i64_refuses_what_std_refuses() {
    for s in ["", "+", "-", " 1", "1 ", "1a", "9223372036854775808", "-9223372036854775809",
        "--1", "+-1", "１"] {
        assert_eq!(parse_i64(s), None, "{:?}", s);
        assert!(s.parse::<i64>().is_err());
    }
}

#[test]
fn parse_unsigned_reads_within_the_type() {
    assert_eq!(parse_unsigned("65535", u16::MAX as u64), Some(65535));
    assert_eq!(parse_unsigned("65536", u16::MAX as u64), None);
    assert_eq!(parse_unsigned("+7", u32::MAX as u64), Some(7));
    assert_eq!(parse_unsigned("-0", u32::MAX as u64), None);
    assert_eq!(parse_unsigned("18446744073709551615", u64::MAX), Some(u64::MAX));
    assert_eq!(parse_unsigned("18446744073709551616", u64::MAX), None);
    assert_eq!(parse_unsigned("+", u64::MAX), None);
}

#[test]
fn parse_agrees_with_std() {
    for s in ["0", "42", "+42", "-42", "4294967295", "4294967296", "99999999999999999999", "x"] {
        assert_eq!(parse_i64(s), s.parse::<i64>().ok(), "{:?}", s);
        assert_eq!(parse_unsigned(s, u32::MAX as u64), s.parse::<u32>().ok().map(|v| v as u64));
    }
}

#[test]
fn i64_text_round_trip() {
    for n in [0i64, 9565, -1, i64::MIN, i64::MAX, 1234567890123] {
        assert_eq!(parse_i64(&signed_to_string(n)), Some(n));
    }
}

#[test]
fn config_defaults() {
    let c = Config::from_vars(&vars()).unwrap();
    assert_eq!(c.pandascore_token, "ps-token");
    assert_eq!(c.vitality_team_id, 9565);
    assert_eq!(c.telegram_bot_token, "tg-token");
    assert_eq!(c.telegram_chat_id, "-100123");
    assert_eq!(c.poll_interval, 120);
    assert_eq!(c.morning_hour, 9);
    assert_eq!(c.port, 3000);
    assert_eq!(c.state_path, "/app/data/state.db");
    assert_eq!(c.timezone.name(), "Europe/Paris");
}

#[test]
fn config_given_values() {
    let mut v = vars();
    v.vitality_team_id = Some("123".to_string());
    v.poll_interval = Some("60".to_string());
    v.morning_hour = Some("8".to_string());
    v.port = Some("9021".to_string());
    v.state_path = Some("state.db".to_string());
    v.timezone = Some("America/New_York".to_string());
    let c = Config::from_vars(&v).unwrap();
    assert_eq!(c.vitality_team_id, 123);
    assert_eq!(c.timezone.name(), "America/New_York");
    assert_eq!(c.poll_interval, 60);
    assert_eq!(c.morning_hour, 8);
    assert_eq!(c.port, 9021);
    assert_eq!(c.state_path, "state.db");
}

#[test]
fn config_errors_in_order() {
    let mut v = vars();
    v.pandascore_token = None;
    v.port = Some("x".to_string());
    assert_eq!(Config::from_vars(&v).unwrap_err(), ConfigError::MissingPandascoreToken);

    let mut v = vars();
    v.vitality_team_id = None;
    assert_eq!(Config::from_vars(&v).unwrap_err(), ConfigError::MissingTeamId);

    let mut v = vars();
    v.vitality_team_id = Some("vitality".to_string());
    assert_eq!(Config::from_vars(&v).unwrap_err(), ConfigError::InvalidTeamId);

    let mut v = vars();
    v.telegram_bot_token = None;
    assert_eq!(Config::from_vars(&v).unwrap_err(), ConfigError::MissingTelegramBotToken);

    let mut v = vars();
    v.telegram_chat_id = None;
    assert_eq!(Config::from_vars(&v).unwrap_err(), ConfigError::MissingTelegramChatId);

    let mut v = vars();
    v.poll_interval = Some("-1".to_string());
    assert_eq!(Config::from_vars(&v).unwrap_err(), ConfigError::InvalidPollInterval);

    let mut v = vars();
    v.morning_hour = Some("4294967296".to_string());
    assert_eq!(Config::from_vars(&v).unwrap_err(), ConfigError::InvalidMorningHour);

    let mut v = vars();
    v.port = Some("70000".to_string());
    assert_eq!(Config::from_vars(&v).unwrap_err(), ConfigError::InvalidPort);

    let mut v = vars();
    v.timezone = Some("Mars/Olympus_Mons".to_string());
    assert_eq!(Config::from_vars(&v).unwrap_err(), ConfigError::UnknownTimezone);
}

#[test]
fn config_error_messages() {
    assert_eq!(ConfigError::MissingPandascoreToken.message(), "PANDASCORE_TOKEN must be set");
    assert_eq!(ConfigError::MissingTeamId.message(), "VITALITY_TEAM_ID must be set");
    assert_eq!(ConfigError::InvalidTeamId.message(), "VITALITY_TEAM_ID must be a number");
    assert_eq!(ConfigError::UnknownTimezone.message(), "TIMEZONE must name a known time zone");
    assert_eq!(ConfigError::MissingTelegramBotToken.message(), "TELEGRAM_BOT_TOKEN must be set");
    assert_eq!(ConfigError::MissingTelegramChatId.message(), "TELEGRAM_CHAT_ID must be set");
    assert_eq!(ConfigError::InvalidPollInterval.message(), "POLL_INTERVAL_SECS must be a number");
    assert_eq!(ConfigError::InvalidMorningHour.message(), "MORNING_REMINDER_HOUR must be a number");
    assert_eq!(ConfigError::InvalidPort.message(), "PORT must be a number");
}

#[test]
fn database_url() {
    let mut v = vars();
    let c = Config::from_vars(&v).unwrap();
    assert_eq!(c.database_url(), "sqlite:/app/data/state.db?mode=rwc");
}
