use vstd::prelude::*;

verus! {

/// A configuration value that the exchange needs.
#[derive(Clone, Copy, Debug, PartialEq, Eq, Structural)]
pub enum Setting {
    ClientId,
    ClientSecret,
}

/// Why an exchange did not yield a token.
#[derive(Clone, Debug, PartialEq, Eq)]
pub enum ExchangeError {
    /// A required setting was absent; no request was made.
    ConfigurationMissing(Setting),
    /// The request could not be completed; holds the cause.
    TransportError(String),
    /// The reply body is not JSON; holds the parser's message.
    ResponseFormatError(String),
    /// The provider answered with an `error` field.
    ProviderError { error: String, description: String },
    /// The reply has no `access_token` field.
    TokenMissing,
    /// The reply's `access_token` field is not a string.
    TokenNotString,
    /// The reply's `access_token` field is the empty string.
    TokenEmpty,
}

/// The mathematical model of an `ExchangeError`.
pub enum Failure {
    ConfigurationMissing(Setting),
    TransportError(Seq<char>),
    ResponseFormatError(Seq<char>),
    ProviderError { error: Seq<char>, description: Seq<char> },
    TokenMissing,
    TokenNotString,
    TokenEmpty,
}

impl View for ExchangeError {
    type V = Failure;

    open spec fn view(&self) -> Failure {
        match self {
            ExchangeError::ConfigurationMissing(s) => Failure::ConfigurationMissing(*s),
            ExchangeError::TransportError(c) => Failure::TransportError(c@),
            ExchangeError::ResponseFormatError(m) => Failure::ResponseFormatError(m@),
            ExchangeError::ProviderError { error, description } => Failure::ProviderError {
                error: error@,
                description: description@,
            },
            ExchangeError::TokenMissing => Failure::TokenMissing,
            ExchangeError::TokenNotString => Failure::TokenNotString,
            ExchangeError::TokenEmpty => Failure::TokenEmpty,
        }
    }
}

/// The model of an exchange's result: the token's characters or the failure.
pub open spec fn outcome_view(r: Result<String, ExchangeError>) -> Result<Seq<char>, Failure> {
    match r {
        Ok(t) => Ok(t@),
        Err(e) => Err(e@),
    }
}

/// The text by which a failure is reported to the front end.
pub open spec fn message_of(f: Failure) -> Seq<char> {
    match f {
        Failure::ConfigurationMissing(Setting::ClientId) => "Missing GitHub client ID"@,
        Failure::ConfigurationMissing(Setting::ClientSecret) => "Missing GitHub client secret"@,
        Failure::TransportError(c) => "Request error: "@ + c,
        Failure::ResponseFormatError(m) => "Failed to parse JSON: "@ + m,
        Failure::ProviderError { error, description } => "GitHub OAuth error: "@ + error + " - "@
            + description,
        Failure::TokenMissing => "No access token in response"@,
        Failure::TokenNotString => "Access token is not a string"@,
        Failure::TokenEmpty => "Received empty access token"@,
    }
}

impl ExchangeError {
    /// The text by which this failure is reported to the front end.
    pub fn message(&self) -> (r: String)
        ensures
            r@ == message_of(self@),
    {
        match self {
            ExchangeError::ConfigurationMissing(Setting::ClientId) => String::from_str(
                "Missing GitHub client ID",
            ),
            ExchangeError::ConfigurationMissing(Setting::ClientSecret) => String::from_str(
                "Missing GitHub client secret",
            ),
            ExchangeError::TransportError(c) => String::from_str("Request error: ").concat(
                c.as_str(),
            ),
            ExchangeError::ResponseFormatError(m) => String::from_str(
                "Failed to parse JSON: ",
            ).concat(m.as_str()),
            ExchangeError::ProviderError { error, description } => String::from_str(
                "GitHub OAuth error: ",
            ).concat(error.as_str()).concat(" - ").concat(description.as_str()),
            ExchangeError::TokenMissing => String::from_str("No access token in response"),
            ExchangeError::TokenNotString => String::from_str("Access token is not a string"),
            ExchangeError::TokenEmpty => String::from_str("Received empty access token"),
        }
    }
}

} // verus!
