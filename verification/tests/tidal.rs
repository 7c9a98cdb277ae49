use rmus::text::{first_line, unquoted};
use rmus::tidal::{refusal, SavedTexts, SessionError, TidalSession, TokenTexts};

fn opt(text: Option<&String>) -> Option<&str> {
    text.map(|t| t.as_str())
}

#[test]
fn first_line_stops_at_the_line_feed() {
    assert_eq!(first_line("abc\ndef\n"), Some(String::from("abc")));
    assert_eq!(first_line("abc"), Some(String::from("abc")));
    assert_eq!(first_line("abc\r\ndef"), Some(String::from("abc")));
    assert_eq!(first_line("\nabc"), Some(String::new()));
    assert_eq!(first_line("\r\nabc"), Some(String::new()));
    assert_eq!(first_line("abc\r"), Some(String::from("abc\r")));
    assert_eq!(first_line("a\rb\nc"), Some(String::from("a\rb")));
    assert_eq!(first_line("a\r\r\nc"), Some(String::from("a\r")));
    assert_eq!(first_line(""), None);
}

#[test]
fn first_line_agrees_with_std_lines() {
    for text in ["", "\n", "\r", "\r\n", "x", "x\n", "x\r\n", "x\ry", "héllo wörld\r\nzwei", "a\n\nb", "\n\n"] {
        assert_eq!(first_line(text), text.lines().next().map(String::from));
    }
}

#[test]
fn unquoted_drops_first_and_last_character() {
    assert_eq!(unquoted("\"abc\""), Some(String::from("abc")));
    assert_eq!(unquoted("\"\""), Some(String::new()));
    assert_eq!(unquoted("null"), Some(String::from("ul")));
    assert_eq!(unquoted("\"é\""), Some(String::from("é")));
    assert_eq!(unquoted("5"), None);
    assert_eq!(unquoted(""), None);
}

#[test]
fn first_start_session() {
    let session = TidalSession::new("my-client\nsecret\n").unwrap();
    assert_eq!(session.get_client_id(), "my-client");
    assert_eq!(session.get_url(), "https://api.tidal.com/v1/");
    assert_eq!(session.get_device_code(), "Empty");
    assert_eq!(session.get_log(), "Empty");
    assert!(session.get_token_type().is_none());
    assert!(session.get_country_code().is_none());
    assert!(session.get_access_token().is_none());
    assert!(session.get_refresh_token().is_none());
}

#[test]
fn first_start_needs_credentials() {
    assert!(TidalSession::new("").is_none());
    assert_eq!(TidalSession::new("\n").unwrap().get_client_id(), "");
}

const SAVED: &str = r#"{"client_id":"cid","url":"https://api.tidal.com/v1/","device_code":"dev","country_code":"DE","token_type":"Bearer","access_token":"acc","refresh_token":"ref","log":""}"#;

#[test]
fn saved_session_is_restored() {
    let session = TidalSession::from_saved(SAVED).ok().unwrap();
    assert_eq!(session.get_client_id(), "cid");
    assert_eq!(session.get_device_code(), "dev");
    assert_eq!(session.get_url(), "https://api.tidal.com/v1/");
    assert_eq!(opt(session.get_country_code()), Some("DE"));
    assert_eq!(opt(session.get_token_type()), Some("Bearer"));
    assert_eq!(opt(session.get_access_token()), Some("acc"));
    assert_eq!(opt(session.get_refresh_token()), Some("ref"));
    let value: serde_json::Value = serde_json::from_str(SAVED).unwrap();
    assert_eq!(session.get_log(), &serde_json::to_string_pretty(&value).unwrap());
    assert!(session.get_log().contains("\n  \"client_id\": \"cid\""));
}

#[test]
fn saved_session_with_missing_members_keeps_the_middle_of_null() {
    let session = TidalSession::from_saved(r#"{"client_id":"cid","device_code":"dev"}"#).ok().unwrap();
    assert_eq!(session.get_client_id(), "cid");
    assert_eq!(opt(session.get_access_token()), Some("ul"));
    assert_eq!(opt(session.get_country_code()), Some("ul"));
}

#[test]
fn saved_session_that_is_not_json_is_refused() {
    assert_eq!(TidalSession::from_saved("{not json").err(), Some(SessionError::NotJson));
    assert_eq!(TidalSession::from_saved("").err(), Some(SessionError::NotJson));
}

#[test]
fn saved_session_with_a_short_member_is_refused() {
    let text = r#"{"client_id":5,"device_code":"dev","country_code":"DE","token_type":"Bearer","access_token":"acc","refresh_token":"ref"}"#;
    assert_eq!(TidalSession::from_saved(text).err(), Some(SessionError::NotQuoted));
}

#[test]
fn member_texts_are_taken_between_their_quotes() {
    let texts = SavedTexts {
        client_id: String::from("\"a\""),
        device_code: String::from("\"b\""),
        access_token: String::from("\"c\""),
        refresh_token: String::from("\"d\""),
        token_type: String::from("\"e\""),
        country_code: String::from("\"f\""),
    };
    let session = TidalSession::from_member_texts(&texts, String::from("the log")).ok().unwrap();
    assert_eq!(session.get_client_id(), "a");
    assert_eq!(session.get_device_code(), "b");
    assert_eq!(opt(session.get_access_token()), Some("c"));
    assert_eq!(opt(session.get_refresh_token()), Some("d"));
    assert_eq!(opt(session.get_token_type()), Some("e"));
    assert_eq!(opt(session.get_country_code()), Some("f"));
    assert_eq!(session.get_log(), "the log");
    let short = SavedTexts { refresh_token: String::from("7"), ..texts };
    assert_eq!(
        TidalSession::from_member_texts(&short, String::new()).err(),
        Some(SessionError::NotQuoted)
    );
}

#[test]
fn device_authorization_sets_code_and_log() {
    let mut session = TidalSession::new("cid").unwrap();
    let body = r#"{"deviceCode":"abc-123","userCode":"XYZ"}"#;
    assert!(session.login_oauth(body).is_ok());
    assert_eq!(session.get_device_code(), "abc-123");
    let value: serde_json::Value = serde_json::from_str(body).unwrap();
    let pretty = serde_json::to_string_pretty(&value).unwrap();
    assert_eq!(session.get_log(), &format!("response: {}\n device code: {}", pretty, "abc-123"));
    assert_eq!(session.get_client_id(), "cid");
}

#[test]
fn device_authorization_failures_change_nothing() {
    let mut session = TidalSession::new("cid").unwrap();
    assert_eq!(session.login_oauth("<html>").err(), Some(SessionError::NotJson));
    assert_eq!(session.login_oauth(r#"{"deviceCode":1}"#).err(), Some(SessionError::NotQuoted));
    assert_eq!(session.get_device_code(), "Empty");
    assert_eq!(session.get_log(), "Empty");
}

#[test]
fn device_code_text_is_applied() {
    let mut session = TidalSession::new("cid").unwrap();
    assert!(session.apply_device_code("\"dc\"", "{}").is_ok());
    assert_eq!(session.get_device_code(), "dc");
    assert_eq!(session.get_log(), "response: {}\n device code: dc");
    assert_eq!(session.apply_device_code("x", "{}").err(), Some(SessionError::NotQuoted));
    assert_eq!(session.get_device_code(), "dc");
}

#[test]
fn token_response_is_taken_in() {
    let mut session = TidalSession::new("cid").unwrap();
    let body = r#"{"access_token":"A","refresh_token":"R","token_type":"Bearer","countryCode":"NO"}"#;
    let shown = session.post_after_user(true, "200 OK", body).ok().unwrap();
    let value: serde_json::Value = serde_json::from_str(body).unwrap();
    assert_eq!(shown, serde_json::to_string_pretty(&value).unwrap());
    assert_eq!(opt(session.get_access_token()), Some("A"));
    assert_eq!(opt(session.get_refresh_token()), Some("R"));
    assert_eq!(opt(session.get_token_type()), Some("Bearer"));
    assert_eq!(opt(session.get_country_code()), Some("NO"));
    assert_eq!(session.get_log(), "Empty");
}

#[test]
fn token_refusal_is_shown_as_it_came() {
    let mut session = TidalSession::new("cid").unwrap();
    let shown = session.post_after_user(false, "400 Bad Request", "{\"error\":\"pending\"}").ok().unwrap();
    assert_eq!(shown, "400 Bad Request\n\n{\"error\":\"pending\"}");
    assert!(session.get_access_token().is_none());
    assert_eq!(refusal("401 Unauthorized", "no"), "401 Unauthorized\n\nno");
}

#[test]
fn token_response_failures_change_nothing() {
    let mut session = TidalSession::new("cid").unwrap();
    assert_eq!(session.post_after_user(true, "200 OK", "oops").err(), Some(SessionError::NotJson));
    let body = r#"{"access_token":"A","refresh_token":"R","token_type":"Bearer","countryCode":3}"#;
    assert_eq!(session.post_after_user(true, "200 OK", body).err(), Some(SessionError::NotQuoted));
    assert!(session.get_access_token().is_none());
    assert!(session.get_country_code().is_none());
}

#[test]
fn token_texts_are_applied() {
    let mut session = TidalSession::new("cid").unwrap();
    let texts = TokenTexts {
        access_token: String::from("\"A\""),
        refresh_token: String::from("\"R\""),
        token_type: String::from("\"T\""),
        country_code: String::from("\"C\""),
    };
    assert!(session.apply_token_texts(&texts).is_ok());
    assert_eq!(opt(session.get_access_token()), Some("A"));
    assert_eq!(opt(session.get_country_code()), Some("C"));
}

#[test]
fn log_can_be_replaced() {
    let mut session = TidalSession::new("cid").unwrap();
    session.set_log(String::from("beginning request"));
    assert_eq!(session.get_log(), "beginning request");
    assert_eq!(session.get_client_id(), "cid");
}
