//! Building the authenticated request.
//!
//! A signed request is the URL plus the three authentication headers: `TS`
//! (the decimal timestamp), `API-KEY` (the key, verbatim), and `API-HMAC`
//! (the signature). `is_signed_request_for` is the spec of a correctly
//! signed request for given credentials, timestamp, method and path.

use std::time::SystemTime;
use std::time::UNIX_EPOCH;
use vstd::prelude::*;
use vstd::string::StringExecFns;

use crate::decimal::dec_chars;
use crate::decimal::u64_to_dec;
use crate::errors::ApiError;
use crate::signing::compute_signature;
use crate::signing::signature_chars;
use crate::signing::wf_method;
use crate::signing::wf_path;

verus! {

/// The fixed base URL every request is sent to.
pub open spec fn endpoint() -> Seq<char> {
    "https://api.boltz.exchange"@
}

/// The two credentials: the key travels in a header, the secret only ever
/// keys the MAC and is never transmitted.
pub struct Credentials {
    pub api_key: String,
    pub api_secret: String,
}

/// A fully built, ready-to-dispatch request: the URL and the values of the
/// three authentication headers.
pub struct SignedRequest {
    /// The full target URL: the fixed endpoint followed by the path.
    pub url: String,
    /// The HTTP verb.
    pub method: String,
    /// The `TS` header: the timestamp in decimal.
    pub ts: String,
    /// The `API-KEY` header: the key, verbatim.
    pub api_key: String,
    /// The `API-HMAC` header: the lowercase hex HMAC-SHA256 signature.
    pub signature: String,
}

/// What it means for `r` to be the correctly signed request for the given
/// key, secret, timestamp, method and path.
pub open spec fn is_signed_request_for(
    r: SignedRequest,
    key: Seq<char>,
    secret: Seq<char>,
    ts: u64,
    method: Seq<char>,
    path: Seq<char>,
) -> bool {
    &&& r.url@ == endpoint() + path
    &&& r.method@ == method
    &&& r.ts@ == dec_chars(ts as nat)
    &&& r.api_key@ == key
    &&& r.signature@ == signature_chars(secret, ts, method, path)
}

/// A request correctly signed for some timestamp: the moment the clock gave
/// when the request was built.
pub open spec fn signed_for_some_ts(
    r: SignedRequest,
    key: Seq<char>,
    secret: Seq<char>,
    method: Seq<char>,
    path: Seq<char>,
) -> bool {
    exists|ts: u64| #[trigger] is_signed_request_for(r, key, secret, ts, method, path)
}

/// Accepts the two environment values; fails with `ConfigError` when either
/// is absent, and never for any other reason.
pub fn credentials_from_env(key: Option<String>, secret: Option<String>) -> (r: Result<
    Credentials,
    ApiError,
>)
    ensures
        r is Ok <==> (key is Some && secret is Some),
        key matches Some(k) ==> secret matches Some(s) ==> (r matches Ok(c) && c.api_key == k
            && c.api_secret == s),
        r matches Err(e) ==> e == ApiError::ConfigError,
{
    match (key, secret) {
        (Some(k), Some(s)) => Ok(Credentials { api_key: k, api_secret: s }),
        _ => Err(ApiError::ConfigError),
    }
}

/// Relies on std::time::SystemTime::now and duration_since: `Some(s)` holds
/// the whole seconds elapsed since the Unix epoch when the clock is not
/// before it, `None` when it is. The value depends on the wall clock, so
/// nothing more is stated of it.
#[verifier::external_body]
fn unix_time_now() -> (r: Option<u64>) {
    match SystemTime::now().duration_since(UNIX_EPOCH) {
        Ok(d) => Some(d.as_secs()),
        Err(_) => None,
    }
}

/// Reads the wall clock; fails with `ClockError` when the clock reports a
/// time before the Unix epoch (the anomaly is surfaced, never clamped).
pub fn current_timestamp() -> (r: Result<u64, ApiError>)
    ensures
        r matches Err(e) ==> e == ApiError::ClockError,
{
    match unix_time_now() {
        Some(t) => Ok(t),
        None => Err(ApiError::ClockError),
    }
}

/// Builds the signed request for a given timestamp: URL, verb, and the three
/// header values, signed exactly over `"{timestamp}{METHOD}{path}"`.
pub fn build_signed_request(creds: &Credentials, ts: u64, method: &str, path: &str) -> (r:
    SignedRequest)
    requires
        wf_method(method@),
        wf_path(path@),
    ensures
        is_signed_request_for(r, creds.api_key@, creds.api_secret@, ts, method@, path@),
{
    let mut url = String::from_str("https://api.boltz.exchange");
    url.append(path);
    let sig = compute_signature(creds.api_secret.as_str(), ts, method, path);
    SignedRequest {
        url,
        method: String::from_str(method),
        ts: u64_to_dec(ts),
        api_key: creds.api_key.clone(),
        signature: sig,
    }
}

/// Reads the clock and builds the signed request for the current moment;
/// fails only with `ClockError`, and only for a pre-epoch clock.
pub fn prepare_signed_request(creds: &Credentials, method: &str, path: &str) -> (r: Result<
    SignedRequest,
    ApiError,
>)
    requires
        wf_method(method@),
        wf_path(path@),
    ensures
        r matches Ok(req) ==> signed_for_some_ts(
            req,
            creds.api_key@,
            creds.api_secret@,
            method@,
            path@,
        ),
        r matches Err(e) ==> e == ApiError::ClockError,
{
    match current_timestamp() {
        Ok(ts) => {
            let req = build_signed_request(creds, ts, method, path);
            proof {
                assert(signed_for_some_ts(
                    req,
                    creds.api_key@,
                    creds.api_secret@,
                    method@,
                    path@,
                )) by {
                    assert(is_signed_request_for(
                        req,
                        creds.api_key@,
                        creds.api_secret@,
                        ts,
                        method@,
                        path@,
                    ));
                }
            }
            Ok(req)
        },
        Err(e) => Err(e),
    }
}

/// The whole pre-dispatch sequence of the original cycle: validate the
/// credentials, read the clock, and sign. `ConfigError` comes exactly when a
/// credential is missing — with both present the call either succeeds or
/// reports the clock — and the result is ready to send: nothing touches the
/// network up to here.
pub fn prepare_authenticated_request(
    key: Option<String>,
    secret: Option<String>,
    method: &str,
    path: &str,
) -> (r: Result<SignedRequest, ApiError>)
    requires
        wf_method(method@),
        wf_path(path@),
    ensures
        (key is None || secret is None) ==> (r matches Err(e) && e == ApiError::ConfigError),
        (key is Some && secret is Some) ==> (r is Ok || (r matches Err(e)
            && e == ApiError::ClockError)),
        r matches Err(e) ==> (e == ApiError::ConfigError || e == ApiError::ClockError),
        r matches Ok(req) ==> (key matches Some(k) && secret matches Some(s)
            && signed_for_some_ts(req, k@, s@, method@, path@)),
{
    match credentials_from_env(key, secret) {
        Ok(creds) => prepare_signed_request(&creds, method, path),
        Err(e) => Err(e),
    }
}

} // verus!
