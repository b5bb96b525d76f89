use algotrader::decimal::{format_decimal, format_two_decimals, format_u64, parse_decimal, parse_i64};
use algotrader::error::{fatal_api_error, retryable_api_error, BotError, Severity};
use algotrader::fixed::SCALE;

#[test]
fn parse_integers_like_std() {
    for s in ["0", "-0", "+7", "42", "-9223372036854775808", "9223372036854775807", "", "-", "+", "1.0", "9223372036854775808", " 1", "00012"] {
        assert_eq!(parse_i64(s), s.parse::<i64>().ok(), "{}", s);
    }
}

#[test]
fn parse_decimals() {
    assert_eq!(parse_decimal("3000"), Some(3000 * SCALE));
    assert_eq!(parse_decimal("3000.5"), Some(300_050_000_000));
    assert_eq!(parse_decimal("-0.00000001"), Some(-1));
    assert_eq!(parse_decimal("0.123456789"), Some(12_345_678));
    assert_eq!(parse_decimal(".5"), Some(SCALE / 2));
    assert_eq!(parse_decimal("5."), Some(5 * SCALE));
    assert_eq!(parse_decimal("+1"), Some(SCALE));
    assert_eq!(parse_decimal(""), None);
    assert_eq!(parse_decimal("."), None);
    assert_eq!(parse_decimal("-"), None);
    assert_eq!(parse_decimal("1.2.3"), None);
    assert_eq!(parse_decimal("1e5"), None);
    assert_eq!(parse_decimal("99999999999"), None);
    assert_eq!(parse_decimal("92233720368.54775807"), Some(i64::MAX));
}

#[test]
fn format_and_read_back() {
    assert_eq!(format_u64(0), "0");
    assert_eq!(format_u64(1_700_000_000_000), "1700000000000");
    assert_eq!(format_decimal(0), "0");
    assert_eq!(format_decimal(3_750_000), "0.0375");
    assert_eq!(format_decimal(-150_000_000), "-1.5");
    assert_eq!(format_decimal(300_000_000_000), "3000");
    for x in [0i64, 1, -1, 12_345_678, SCALE, -SCALE * 7 - 3, i64::MAX, i64::MIN, 3_750_000] {
        assert_eq!(parse_decimal(&format_decimal(x)), Some(x));
    }
}

#[test]
fn error_classification() {
    let e = retryable_api_error("x".to_string());
    assert!(e.is_retryable() && !e.is_critical());
    assert_eq!(e.severity(), Severity::Warn);
    let e = fatal_api_error("x".to_string());
    assert!(!e.is_retryable());
    assert_eq!(e.severity(), Severity::Error);
    assert!(BotError::RateLimitExceeded { retry_after_ms: 5 }.is_retryable());
    assert!(BotError::NetworkError("n".to_string()).is_retryable());
    assert!(BotError::WebSocketError("w".to_string()).is_retryable());
    assert!(BotError::StateDesync { details: "d".to_string() }.is_critical());
    assert!(BotError::EmergencyStopLoss { loss_pct: 1 }.is_critical());
    assert!(BotError::AuthenticationError("a".to_string()).is_critical());
    assert_eq!(BotError::StrategyTimeout { held_hours: 1, max_hours: 2 }.severity(), Severity::Info);
    assert_eq!(BotError::MaxGridLevelsExceeded(4).severity(), Severity::Warn);
    assert_eq!(BotError::Unknown("u".to_string()).severity(), Severity::Debug);
}

#[test]
fn two_decimal_percentages() {
    assert_eq!(format_two_decimals(90 * SCALE), "90.00");
    assert_eq!(format_two_decimals(212_345_678), "2.12");
    assert_eq!(format_two_decimals(212_500_000), "2.13");
    assert_eq!(format_two_decimals(-5_000), "-0.00");
    assert_eq!(format_two_decimals(-1_999_999_999), "-20.00");
    assert_eq!(format_two_decimals(i64::MAX), "92233720368.55");
}
