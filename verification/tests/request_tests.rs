use referral_stats::errors::ApiError;
use referral_stats::request::build_signed_request;
use referral_stats::request::credentials_from_env;
use referral_stats::request::current_timestamp;
use referral_stats::request::prepare_authenticated_request;
use referral_stats::request::prepare_signed_request;
use referral_stats::request::Credentials;
use referral_stats::signing::compute_signature;

#[test]
fn missing_key_is_config_error() {
    let r = credentials_from_env(None, Some(String::from("s")));
    assert!(matches!(r, Err(ApiError::ConfigError)));
}

#[test]
fn missing_secret_is_config_error() {
    let r = credentials_from_env(Some(String::from("k")), None);
    assert!(matches!(r, Err(ApiError::ConfigError)));
}

#[test]
fn both_missing_is_config_error() {
    let r = credentials_from_env(None, None);
    assert!(matches!(r, Err(ApiError::ConfigError)));
}

#[test]
fn present_credentials_are_accepted() {
    let r = credentials_from_env(Some(String::from("k")), Some(String::from("s"))).unwrap();
    assert_eq!(r.api_key, "k");
    assert_eq!(r.api_secret, "s");
}

#[test]
fn built_request_carries_url_and_headers() {
    let creds = Credentials {
        api_key: String::from("my-key"),
        api_secret: String::from("s"),
    };
    let req = build_signed_request(&creds, 1000, "GET", "/v2/referral/stats");
    assert_eq!(req.url, "https://api.boltz.exchange/v2/referral/stats");
    assert_eq!(req.method, "GET");
    assert_eq!(req.ts, "1000");
    assert_eq!(req.api_key, "my-key");
    assert_eq!(
        req.signature,
        "10edd790312deaf619066424c75fbafe505ea589e7f71085a9e4af4baa1dc34b"
    );
}

#[test]
fn clock_is_past_epoch() {
    let ts = current_timestamp().unwrap();
    assert!(ts > 1_600_000_000);
}

#[test]
fn prepared_request_is_signed_for_its_own_timestamp() {
    let creds = Credentials {
        api_key: String::from("k"),
        api_secret: String::from("sec"),
    };
    let req = prepare_signed_request(&creds, "GET", "/v2/referral/stats").unwrap();
    let ts: u64 = req.ts.parse().unwrap();
    assert!(ts > 1_600_000_000);
    let expected = compute_signature("sec", ts, "GET", "/v2/referral/stats");
    assert_eq!(req.signature, expected);
}

#[test]
fn missing_env_fails_before_anything_else() {
    let r = prepare_authenticated_request(None, None, "GET", "/v2/referral/stats");
    assert!(matches!(r, Err(ApiError::ConfigError)));
    let r = prepare_authenticated_request(Some(String::from("k")), None, "GET", "/v2/referral/stats");
    assert!(matches!(r, Err(ApiError::ConfigError)));
}

#[test]
fn full_preparation_succeeds_with_credentials() {
    let r = prepare_authenticated_request(
        Some(String::from("k")),
        Some(String::from("s")),
        "GET",
        "/v2/referral/stats",
    )
    .unwrap();
    assert_eq!(r.api_key, "k");
    assert_eq!(r.url, "https://api.boltz.exchange/v2/referral/stats");
}

#[test]
fn error_messages_name_each_kind() {
    assert_eq!(ApiError::ConfigError.message(), "missing API_KEY or API_SECRET");
    assert_eq!(
        ApiError::ClockError.message(),
        "system clock is before the Unix epoch"
    );
    assert_eq!(ApiError::NetworkError.message(), "network request failed");
    assert_eq!(
        ApiError::ParseError.message(),
        "response body is not valid JSON"
    );
}
