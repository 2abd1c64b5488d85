use vstd::prelude::*;

use crate::error::{outcome_view, ExchangeError, Failure, Setting};
use crate::reply::{body_outcome, classify_reply};

verus! {

/// The address of GitHub's OAuth token endpoint.
pub open spec fn token_endpoint() -> Seq<char> {
    "https://github.com/login/oauth/access_token"@
}

/// The client credentials that every exchange sends.
#[derive(Clone, Debug, PartialEq, Eq)]
pub struct ClientConfig {
    pub client_id: String,
    pub client_secret: String,
}

/// The one request that an exchange sends: a form-encoded POST to `url`
/// with an `Accept` header.
#[derive(Clone, Debug, PartialEq, Eq)]
pub struct TokenRequest {
    pub url: String,
    pub accept: String,
    pub form: Vec<(String, String)>,
}

/// The configuration that a pair of optional settings gives: the client
/// identifier is looked at first.
pub open spec fn config_outcome(client_id: Option<String>, client_secret: Option<String>) -> Result<
    (Seq<char>, Seq<char>),
    Failure,
> {
    match (client_id, client_secret) {
        (None, _) => Err(Failure::ConfigurationMissing(Setting::ClientId)),
        (Some(_), None) => Err(Failure::ConfigurationMissing(Setting::ClientSecret)),
        (Some(i), Some(s)) => Ok((i@, s@)),
    }
}

/// Whether `r` is the token request for `code` under the credentials
/// `client_id` and `client_secret`.
pub open spec fn is_token_request(
    r: TokenRequest,
    client_id: Seq<char>,
    client_secret: Seq<char>,
    code: Seq<char>,
) -> bool {
    &&& r.url@ == token_endpoint()
    &&& r.accept@ == "application/json"@
    &&& r.form@.len() == 3
    &&& r.form@[0].0@ == "client_id"@ && r.form@[0].1@ == client_id
    &&& r.form@[1].0@ == "client_secret"@ && r.form@[1].1@ == client_secret
    &&& r.form@[2].0@ == "code"@ && r.form@[2].1@ == code
}

impl ClientConfig {
    /// Builds the configuration from the two settings as they were found;
    /// an absent one is a failure, never replaced by a default.
    pub fn from_settings(client_id: Option<String>, client_secret: Option<String>) -> (r: Result<
        ClientConfig,
        ExchangeError,
    >)
        ensures
            r is Err <==> (client_id is None || client_secret is None),
            match r {
                Ok(c) => config_outcome(client_id, client_secret) == Ok::<
                    (Seq<char>, Seq<char>),
                    Failure,
                >((c.client_id@, c.client_secret@)),
                Err(e) => config_outcome(client_id, client_secret) == Err::<
                    (Seq<char>, Seq<char>),
                    Failure,
                >(e@),
            },
    {
        match client_id {
            None => Err(ExchangeError::ConfigurationMissing(Setting::ClientId)),
            Some(id) => match client_secret {
                None => Err(ExchangeError::ConfigurationMissing(Setting::ClientSecret)),
                Some(secret) => Ok(ClientConfig { client_id: id, client_secret: secret }),
            },
        }
    }

    /// The request that exchanges `code` for a token under this configuration.
    pub fn token_request(&self, code: &str) -> (r: TokenRequest)
        ensures
            is_token_request(r, self.client_id@, self.client_secret@, code@),
    {
        let mut form: Vec<(String, String)> = Vec::new();
        form.push((String::from_str("client_id"), self.client_id.clone()));
        form.push((String::from_str("client_secret"), self.client_secret.clone()));
        form.push((String::from_str("code"), String::from_str(code)));
        TokenRequest {
            url: String::from_str("https://github.com/login/oauth/access_token"),
            accept: String::from_str("application/json"),
            form,
        }
    }
}

/// The first step of an exchange: the request to send for `code`, or the
/// failure that ends the exchange before any request is made.
pub fn begin_exchange(code: &str, client_id: Option<String>, client_secret: Option<String>) -> (r:
    Result<TokenRequest, ExchangeError>)
    ensures
        r is Err <==> (client_id is None || client_secret is None),
        (client_id is None || client_secret is None) ==> r matches Err(
            ExchangeError::ConfigurationMissing(_),
        ),
        match r {
            Ok(req) => is_token_request(req, client_id->Some_0@, client_secret->Some_0@, code@),
            Err(e) => config_outcome(client_id, client_secret) == Err::<
                (Seq<char>, Seq<char>),
                Failure,
            >(e@),
        },
{
    match ClientConfig::from_settings(client_id, client_secret) {
        Ok(config) => Ok(config.token_request(code)),
        Err(e) => Err(e),
    }
}

/// The result of an exchange whose request ended in `response`: the reply
/// body, or the cause of a transport failure.
pub open spec fn exchange_outcome(response: Result<String, String>) -> Result<Seq<char>, Failure> {
    match response {
        Err(cause) => Err(Failure::TransportError(cause@)),
        Ok(body) => body_outcome(body@),
    }
}

/// The last step of an exchange: the token, or why there is none. A
/// transport failure ends the exchange; it is not retried.
pub fn finish_exchange(response: Result<String, String>) -> (r: Result<String, ExchangeError>)
    ensures
        outcome_view(r) == exchange_outcome(response),
        r matches Ok(t) ==> t@.len() > 0,
        response is Err ==> (r matches Err(ExchangeError::TransportError(c)) && c
            == response->Err_0),
{
    match response {
        Err(cause) => Err(ExchangeError::TransportError(cause)),
        Ok(body) => classify_reply(body.as_str()),
    }
}

} // verus!
