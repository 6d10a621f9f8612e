//! The failure kinds of the client.
//!
//! Every failure of the request cycle is one of four kinds, and each is
//! fatal: nothing is retried or recovered.

use vstd::prelude::*;

verus! {

/// Why an authenticated request failed.
#[derive(Clone, Copy, Debug, PartialEq, Eq, Structural)]
pub enum ApiError {
    /// A credential is missing from the environment.
    ConfigError,
    /// The system clock reports a time before the Unix epoch.
    ClockError,
    /// The transport failed: connection, DNS or TLS.
    NetworkError,
    /// The response body is not a valid JSON document.
    ParseError,
}

impl ApiError {
    /// A short description of the failure, one per kind.
    pub fn message(&self) -> (r: &'static str)
        ensures
            *self == ApiError::ConfigError ==> r@ == "missing API_KEY or API_SECRET"@,
            *self == ApiError::ClockError ==> r@ == "system clock is before the Unix epoch"@,
            *self == ApiError::NetworkError ==> r@ == "network request failed"@,
            *self == ApiError::ParseError ==> r@ == "response body is not valid JSON"@,
    {
        match self {
            ApiError::ConfigError => "missing API_KEY or API_SECRET",
            ApiError::ClockError => "system clock is before the Unix epoch",
            ApiError::NetworkError => "network request failed",
            ApiError::ParseError => "response body is not valid JSON",
        }
    }
}

} // verus!
