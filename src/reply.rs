use vstd::prelude::*;

use crate::error::{outcome_view, ExchangeError, Failure};

verus! {

/// One top-level field of a JSON reply, as the exchange reads it.
#[derive(Clone, Debug, PartialEq, Eq)]
pub enum Field {
    /// The reply is not an object, or has no such key.
    Absent,
    /// The field holds a JSON string; this is its content.
    Text(String),
    /// The field holds another JSON value; this is its compact JSON text.
    Other(String),
}

/// What serde_json reads from a reply body for one key: the field, or the
/// parser's message when the body is not JSON.
pub uninterp spec fn json_field_of(text: Seq<char>, key: Seq<char>) -> Result<Field, String>;

/// Relies on `serde_json::from_str` into a `Value`, `Value::get` and
/// `Value`'s `Display`: the outcome depends on the body and the key alone.
#[verifier::external_body]
fn json_field(text: &str, key: &str) -> (r: Result<Field, String>)
    ensures
        r == json_field_of(text@, key@),
{
    match serde_json::from_str::<serde_json::Value>(text) {
        Err(e) => Err(e.to_string()),
        Ok(v) => Ok(match v.get(key) {
            None => Field::Absent,
            Some(serde_json::Value::String(s)) => Field::Text(s.clone()),
            Some(other) => Field::Other(other.to_string()),
        }),
    }
}

/// The characters of a field that is present, whatever its kind.
pub open spec fn field_text(f: Field) -> Seq<char> {
    match f {
        Field::Absent => Seq::empty(),
        Field::Text(s) => s@,
        Field::Other(s) => s@,
    }
}

/// The provider's description of an error: its text when it is a string,
/// else a fixed placeholder.
pub open spec fn description_of(description: Result<Field, String>) -> Seq<char> {
    match description {
        Ok(Field::Text(s)) => s@,
        _ => "Unknown error"@,
    }
}

/// The result of an exchange, given what was read of the reply's `error`,
/// `error_description` and `access_token` fields.
pub open spec fn reply_outcome(
    error: Result<Field, String>,
    description: Result<Field, String>,
    token: Result<Field, String>,
) -> Result<Seq<char>, Failure> {
    match error {
        Err(m) => Err(Failure::ResponseFormatError(m@)),
        Ok(Field::Absent) => match token {
            Err(m) => Err(Failure::ResponseFormatError(m@)),
            Ok(Field::Absent) => Err(Failure::TokenMissing),
            Ok(Field::Other(_)) => Err(Failure::TokenNotString),
            Ok(Field::Text(t)) => if t@.len() == 0 {
                Err(Failure::TokenEmpty)
            } else {
                Ok(t@)
            },
        },
        Ok(e) => Err(
            Failure::ProviderError { error: field_text(e), description: description_of(description) },
        ),
    }
}

/// The result of an exchange whose reply body is `text`.
pub open spec fn body_outcome(text: Seq<char>) -> Result<Seq<char>, Failure> {
    reply_outcome(
        json_field_of(text, "error"@),
        json_field_of(text, "error_description"@),
        json_field_of(text, "access_token"@),
    )
}

/// Decides the result of an exchange from the reply's `error`,
/// `error_description` and `access_token` fields: a provider error first,
/// then a token that must be a non-empty string.
pub fn decide_reply(
    error: Result<Field, String>,
    description: Result<Field, String>,
    token: Result<Field, String>,
) -> (r: Result<String, ExchangeError>)
    ensures
        outcome_view(r) == reply_outcome(error, description, token),
        r matches Ok(t) ==> t@.len() > 0,
{
    match error {
        Err(m) => Err(ExchangeError::ResponseFormatError(m)),
        Ok(Field::Absent) => match token {
            Err(m) => Err(ExchangeError::ResponseFormatError(m)),
            Ok(Field::Absent) => Err(ExchangeError::TokenMissing),
            Ok(Field::Other(_)) => Err(ExchangeError::TokenNotString),
            Ok(Field::Text(t)) => if t.as_str().is_empty() {
                Err(ExchangeError::TokenEmpty)
            } else {
                Ok(t)
            },
        },
        Ok(Field::Text(e)) => Err(
            ExchangeError::ProviderError { error: e, description: description_text(description) },
        ),
        Ok(Field::Other(e)) => Err(
            ExchangeError::ProviderError { error: e, description: description_text(description) },
        ),
    }
}

/// The provider's description of an error, or a fixed placeholder when it
/// is absent or not a string.
fn description_text(description: Result<Field, String>) -> (r: String)
    ensures
        r@ == description_of(description),
{
    match description {
        Ok(Field::Text(s)) => s,
        _ => String::from_str("Unknown error"),
    }
}

/// Classifies a reply body: the token it carries, or why it carries none.
pub fn classify_reply(text: &str) -> (r: Result<String, ExchangeError>)
    ensures
        outcome_view(r) == body_outcome(text@),
        r matches Ok(t) ==> t@.len() > 0,
{
    let error = json_field(text, "error");
    let description = json_field(text, "error_description");
    let token = json_field(text, "access_token");
    decide_reply(error, description, token)
}

} // verus!
