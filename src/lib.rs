//! OAuth token exchange against GitHub's token endpoint.
//!
//! The library holds the decisions of the exchange: which settings are
//! required, what request is sent, and how the provider's reply is
//! classified. Sending the request and reading the reply are left to the
//! caller, which hands the outcome back as plain values.
pub mod error;
pub mod exchange;
pub mod reply;

pub use error::{ExchangeError, Failure, Setting};
pub use reply::{classify_reply, decide_reply, Field};
pub use exchange::{begin_exchange, finish_exchange, ClientConfig, TokenRequest};
