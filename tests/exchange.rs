use wtftoday::{
    begin_exchange, classify_reply, decide_reply, finish_exchange, ClientConfig, ExchangeError,
    Field, Setting,
};

fn s(text: &str) -> String {
    text.to_string()
}

fn reply(body: &str) -> Result<String, ExchangeError> {
    finish_exchange(Ok(s(body)))
}

#[test]
fn missing_client_id_fails_before_any_request() {
    let r = begin_exchange("code", None, Some(s("secret")));
    assert_eq!(r, Err(ExchangeError::ConfigurationMissing(Setting::ClientId)));
}

#[test]
fn missing_client_secret_fails_before_any_request() {
    let r = begin_exchange("code", Some(s("id")), None);
    assert_eq!(r, Err(ExchangeError::ConfigurationMissing(Setting::ClientSecret)));
}

#[test]
fn missing_both_settings_fails_before_any_request() {
    let r = begin_exchange("code", None, None);
    assert_eq!(r, Err(ExchangeError::ConfigurationMissing(Setting::ClientId)));
}

#[test]
fn empty_settings_are_present_settings() {
    let c = ClientConfig::from_settings(Some(s("")), Some(s(""))).unwrap();
    assert_eq!(c.client_id, "");
    assert_eq!(c.client_secret, "");
}

#[test]
fn request_carries_endpoint_header_and_form() {
    let r = begin_exchange("the-code", Some(s("my-id")), Some(s("my-secret"))).unwrap();
    assert_eq!(r.url, "https://github.com/login/oauth/access_token");
    assert_eq!(r.accept, "application/json");
    assert_eq!(
        r.form,
        vec![
            (s("client_id"), s("my-id")),
            (s("client_secret"), s("my-secret")),
            (s("code"), s("the-code")),
        ]
    );
}

#[test]
fn token_is_returned_verbatim() {
    assert_eq!(reply(r#"{"access_token":"abc123"}"#), Ok(s("abc123")));
}

#[test]
fn token_beside_other_fields_is_returned() {
    let body = r#"{"access_token":"gho_x","token_type":"bearer","scope":"repo"}"#;
    assert_eq!(reply(body), Ok(s("gho_x")));
}

#[test]
fn provider_error_surfaces_error_and_description() {
    let body = r#"{"error":"bad_verification_code","error_description":"The code passed is incorrect or expired."}"#;
    let r = reply(body);
    assert_eq!(
        r,
        Err(ExchangeError::ProviderError {
            error: s("bad_verification_code"),
            description: s("The code passed is incorrect or expired."),
        })
    );
    let m = r.unwrap_err().message();
    assert!(m.contains("bad_verification_code"));
    assert!(m.contains("The code passed is incorrect or expired."));
}

#[test]
fn provider_error_wins_over_a_token() {
    let body = r#"{"error":"denied","access_token":"abc"}"#;
    assert_eq!(
        reply(body),
        Err(ExchangeError::ProviderError { error: s("denied"), description: s("Unknown error") })
    );
}

#[test]
fn provider_error_that_is_not_a_string_is_shown_as_json() {
    let body = r#"{"error":42,"error_description":7}"#;
    assert_eq!(
        reply(body),
        Err(ExchangeError::ProviderError { error: s("42"), description: s("Unknown error") })
    );
}

#[test]
fn empty_token_is_rejected() {
    assert_eq!(reply(r#"{"access_token":""}"#), Err(ExchangeError::TokenEmpty));
}

#[test]
fn non_json_body_is_a_format_error() {
    let r = reply("<html>not json</html>");
    assert!(matches!(r, Err(ExchangeError::ResponseFormatError(_))));
}

#[test]
fn empty_body_is_a_format_error() {
    assert!(matches!(reply(""), Err(ExchangeError::ResponseFormatError(_))));
}

#[test]
fn empty_object_has_no_token() {
    assert_eq!(reply("{}"), Err(ExchangeError::TokenMissing));
}

#[test]
fn json_that_is_not_an_object_has_no_token() {
    assert_eq!(reply("[1,2]"), Err(ExchangeError::TokenMissing));
}

#[test]
fn token_that_is_not_a_string_is_rejected() {
    assert_eq!(reply(r#"{"access_token":123}"#), Err(ExchangeError::TokenNotString));
    assert_eq!(reply(r#"{"access_token":null}"#), Err(ExchangeError::TokenNotString));
}

#[test]
fn transport_failure_is_reported_once() {
    let r = finish_exchange(Err(s("connection refused")));
    assert_eq!(r, Err(ExchangeError::TransportError(s("connection refused"))));
}

#[test]
fn classify_reads_the_body() {
    assert_eq!(classify_reply(r#"{"access_token":"t"}"#), Ok(s("t")));
    assert_eq!(classify_reply(r#"{"access_token":"t"}"#), reply(r#"{"access_token":"t"}"#));
}

#[test]
fn decide_on_given_fields() {
    let absent = || Ok::<Field, String>(Field::Absent);
    assert_eq!(decide_reply(absent(), absent(), Ok(Field::Text(s("abc")))), Ok(s("abc")));
    assert_eq!(decide_reply(absent(), absent(), absent()), Err(ExchangeError::TokenMissing));
    assert_eq!(
        decide_reply(absent(), absent(), Ok(Field::Other(s("[]")))),
        Err(ExchangeError::TokenNotString)
    );
    assert_eq!(
        decide_reply(absent(), absent(), Ok(Field::Text(s("")))),
        Err(ExchangeError::TokenEmpty)
    );
    assert_eq!(
        decide_reply(Err(s("bad")), absent(), absent()),
        Err(ExchangeError::ResponseFormatError(s("bad")))
    );
    assert_eq!(
        decide_reply(Ok(Field::Text(s("e"))), Ok(Field::Text(s("d"))), Ok(Field::Text(s("t")))),
        Err(ExchangeError::ProviderError { error: s("e"), description: s("d") })
    );
}

#[test]
fn messages_of_each_failure() {
    let cases = vec![
        (ExchangeError::ConfigurationMissing(Setting::ClientId), "Missing GitHub client ID"),
        (
            ExchangeError::ConfigurationMissing(Setting::ClientSecret),
            "Missing GitHub client secret",
        ),
        (ExchangeError::TransportError(s("refused")), "Request error: refused"),
        (ExchangeError::ResponseFormatError(s("eof")), "Failed to parse JSON: eof"),
        (
            ExchangeError::ProviderError { error: s("e"), description: s("d") },
            "GitHub OAuth error: e - d",
        ),
        (ExchangeError::TokenMissing, "No access token in response"),
        (ExchangeError::TokenNotString, "Access token is not a string"),
        (ExchangeError::TokenEmpty, "Received empty access token"),
    ];
    for (e, m) in cases {
        assert_eq!(e.message(), m);
    }
}
