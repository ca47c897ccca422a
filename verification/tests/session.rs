use echat::error::ClientError;
use echat::session::{provider_of_key, storage_key, ProviderKind};
use echat::text::{parse_i32, same_text, starts_with};

#[test]
fn provider_names() {
    assert_eq!(ProviderKind::Matrix.name(), "matrix");
    assert_eq!(ProviderKind::Telegram.name(), "telegram");
}

#[test]
fn key_is_provider_hyphen_account() {
    assert_eq!(storage_key(ProviderKind::Matrix, "@me:example.org"), "matrix-@me:example.org");
    assert_eq!(storage_key(ProviderKind::Telegram, "12345"), "telegram-12345");
    assert_eq!(storage_key(ProviderKind::Telegram, ""), "telegram-");
}

#[test]
fn key_leads_back_to_its_provider() {
    assert_eq!(provider_of_key("matrix-@me:example.org"), Some(ProviderKind::Matrix));
    assert_eq!(provider_of_key("telegram-12345"), Some(ProviderKind::Telegram));
    assert_eq!(provider_of_key(&storage_key(ProviderKind::Matrix, "telegram-1")), Some(ProviderKind::Matrix));
    assert_eq!(provider_of_key(&storage_key(ProviderKind::Telegram, "")), Some(ProviderKind::Telegram));
}

#[test]
fn unknown_keys_have_no_provider() {
    assert_eq!(provider_of_key(""), None);
    assert_eq!(provider_of_key("matrix"), None);
    assert_eq!(provider_of_key("telegram"), None);
    assert_eq!(provider_of_key("Matrix-x"), None);
    assert_eq!(provider_of_key("irc-me"), None);
    assert_eq!(provider_of_key(" matrix-x"), None);
}

#[test]
fn starts_with_compares_characters() {
    assert!(starts_with("https://matrix.org", "http"));
    assert!(starts_with("http", "http"));
    assert!(starts_with("anything", ""));
    assert!(starts_with("", ""));
    assert!(!starts_with("htt", "http"));
    assert!(!starts_with("", "http"));
    assert!(!starts_with("xhttp", "http"));
    assert!(starts_with("дом-1", "дом"));
    assert!(!starts_with("дом-1", "дым"));
}

#[test]
fn same_text_is_equality() {
    assert!(same_text("", ""));
    assert!(same_text("abc", "abc"));
    assert!(!same_text("abc", "abd"));
    assert!(!same_text("abc", "ab"));
    assert!(same_text("чат", "чат"));
}

#[test]
fn parse_i32_reads_decimal_numbers() {
    assert_eq!(parse_i32("0"), Some(0));
    assert_eq!(parse_i32("17"), Some(17));
    assert_eq!(parse_i32("+17"), Some(17));
    assert_eq!(parse_i32("-17"), Some(-17));
    assert_eq!(parse_i32("-0"), Some(0));
    assert_eq!(parse_i32("0005"), Some(5));
    assert_eq!(parse_i32("2147483647"), Some(i32::MAX));
    assert_eq!(parse_i32("-2147483648"), Some(i32::MIN));
    assert_eq!(parse_i32("00000000000000000000000012"), Some(12));
}

#[test]
fn parse_i32_turns_everything_else_away() {
    for text in [
        "", "+", "-", "+-1", "--1", "1+", " 1", "1 ", "1_000", "0x10", "1.0", "1e3", "2147483648",
        "-2147483649", "99999999999999999999", "-99999999999999999999", "١٢", "１２", "12a", "a12",
    ] {
        assert_eq!(parse_i32(text), None);
    }
}

#[test]
fn parse_i32_agrees_with_the_standard_parser() {
    for text in [
        "", "+", "-", "0", "-0", "+0", "007", "42", "-42", "+42", "2147483647", "2147483648",
        "-2147483648", "-2147483649", "4294967296", " 7", "7 ", "7\n", "1_0", "٣", "-", "+-3",
        "12345678901234567890",
    ] {
        assert_eq!(parse_i32(text), text.parse::<i32>().ok());
    }
}

#[test]
fn every_error_has_its_text() {
    assert_eq!(ClientError::AuthenticationFailed.message(), "authentication failed");
    assert_eq!(ClientError::SessionExpired.message(), "session expired");
    assert_eq!(ClientError::ConversationNotFound.message(), "conversation not found");
    assert_eq!(ClientError::TransientNetworkError.message(), "transient network error");
    assert_eq!(ClientError::MalformedStoredSession.message(), "malformed stored session");
    assert_eq!(ClientError::SerializationError.message(), "serialization error");
}

#[test]
fn errors_sort_into_kinds() {
    assert!(ClientError::TransientNetworkError.is_transient());
    assert!(!ClientError::SessionExpired.is_transient());
    assert!(ClientError::AuthenticationFailed.needs_login());
    assert!(ClientError::SessionExpired.needs_login());
    assert!(ClientError::MalformedStoredSession.needs_login());
    assert!(!ClientError::ConversationNotFound.needs_login());
    assert!(!ClientError::TransientNetworkError.needs_login());
    assert!(!ClientError::SerializationError.needs_login());
}
