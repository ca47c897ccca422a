use echat::aggregator::{Aggregator, MergeMode, RawEvent, SenderProfile};
use echat::clients::telegram::{
    message_event, message_number, read_credentials, ClientSession, Credentials,
    CredentialsError, Login, Sender,
};
use echat::clients::EventKind;

fn text(value: &str) -> Option<String> {
    Some(value.to_string())
}

#[test]
fn telegram_session_keeps_its_parts() {
    let session = ClientSession::new(17, "hash".to_string(), "/data/echat/telegram.session".to_string());
    assert_eq!(session.api_id(), 17);
    assert_eq!(session.api_hash(), "hash");
    assert_eq!(session.session_path(), "/data/echat/telegram.session");
    assert_eq!(session.clone(), session);
}

#[test]
fn credentials_are_read_from_both_settings() {
    assert_eq!(
        read_credentials(text("12345"), text("abcdef")),
        Ok(Credentials { api_id: 12345, api_hash: "abcdef".to_string() })
    );
    assert_eq!(
        read_credentials(text("-1"), text("")),
        Ok(Credentials { api_id: -1, api_hash: String::new() })
    );
}

#[test]
fn credential_faults_in_the_order_they_are_looked_for() {
    assert_eq!(read_credentials(None, None), Err(CredentialsError::IdMissing));
    assert_eq!(read_credentials(None, text("h")), Err(CredentialsError::IdMissing));
    assert_eq!(read_credentials(text("abc"), None), Err(CredentialsError::IdNotANumber));
    assert_eq!(read_credentials(text(""), text("h")), Err(CredentialsError::IdNotANumber));
    assert_eq!(read_credentials(text(" 7"), text("h")), Err(CredentialsError::IdNotANumber));
    assert_eq!(read_credentials(text("4294967296"), text("h")), Err(CredentialsError::IdNotANumber));
    assert_eq!(read_credentials(text("7"), None), Err(CredentialsError::HashMissing));
}

#[test]
fn credential_faults_have_their_texts() {
    assert_eq!(CredentialsError::IdMissing.message(), "API_ID environment variable not set");
    assert_eq!(
        CredentialsError::IdNotANumber.message(),
        "API_ID environment variable must be a valid number"
    );
    assert_eq!(CredentialsError::HashMissing.message(), "API_HASH environment variable not set");
}

#[test]
fn login_form_starts_empty() {
    let login = Login::default();
    assert_eq!(login.phone(), "");
    assert_eq!(login.error_message(), &None);
}

#[test]
fn login_form_shows_credential_faults() {
    let mut login = Login::default();
    login.set_phone("+100".to_string());
    assert_eq!(login.credentials(None, text("h")), None);
    assert_eq!(login.error_message(), &text("API_ID environment variable not set"));
    assert_eq!(login.credentials(text("x"), text("h")), None);
    assert_eq!(login.error_message(), &text("API_ID environment variable must be a valid number"));
    assert_eq!(login.credentials(text("1"), None), None);
    assert_eq!(login.error_message(), &text("API_HASH environment variable not set"));
    // Good credentials leave the form as it is.
    assert_eq!(
        login.credentials(text("1"), text("h")),
        Some(Credentials { api_id: 1, api_hash: "h".to_string() })
    );
    assert_eq!(login.error_message(), &text("API_HASH environment variable not set"));
    assert_eq!(login.phone(), "+100");
}

#[test]
fn telegram_form_reports_and_clears_failures() {
    let mut login = Login::default();
    login.login_failed("flood wait");
    assert_eq!(login.error_message(), &text("Login failed: flood wait"));
    login.login_succeeded();
    assert_eq!(login.error_message(), &None);
}

#[test]
fn incoming_message_is_shown_under_the_senders_name() {
    let raw = message_event(
        "41".to_string(),
        1_700_000_000,
        "hello".to_string(),
        Sender::Other { id: "777".to_string(), name: "Alice".to_string() },
        "12345",
    );
    assert_eq!(
        raw,
        RawEvent {
            id: "41".to_string(),
            timestamp: 1_700_000_000,
            sender_id: "777".to_string(),
            kind: Some(EventKind::Message("hello".to_string())),
            profile: Some(SenderProfile { display_name: Some("Alice".to_string()), avatar: None }),
        }
    );
}

#[test]
fn outgoing_message_is_our_own() {
    let raw = message_event("42".to_string(), -1, "bye".to_string(), Sender::Me, "12345");
    assert_eq!(raw.sender_id, "12345");
    assert_eq!(raw.timestamp, u64::MAX);
    assert_eq!(raw.profile, Some(SenderProfile { display_name: Some("You".to_string()), avatar: None }));
    let mut agg = Aggregator::new();
    agg.feed(vec![raw], MergeMode::Append, "12345");
    assert!(agg.groups()[0].from_self);
    assert_eq!(agg.groups()[0].display_name, "You");
    assert_eq!(agg.groups()[0].user_id, "12345");
}

#[test]
fn message_numbers_are_decimal() {
    assert_eq!(message_number("41"), Some(41));
    assert_eq!(message_number("-3"), Some(-3));
    assert_eq!(message_number("$event:example.org"), None);
    assert_eq!(message_number(""), None);
    assert_eq!(message_number("2147483648"), None);
}
