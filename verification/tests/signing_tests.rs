use hmac::Hmac;
use hmac::Mac;
use referral_stats::decimal::u64_to_dec;
use referral_stats::signing::build_signing_message;
use referral_stats::signing::compute_signature;
use sha2::Sha256;

const VECTOR: &str = "10edd790312deaf619066424c75fbafe505ea589e7f71085a9e4af4baa1dc34b";

#[test]
fn known_vector_signature() {
    let sig = compute_signature("s", 1000, "GET", "/v2/referral/stats");
    assert_eq!(sig, VECTOR);
}

#[test]
fn signature_matches_direct_hmac() {
    let mut mac = <Hmac<Sha256> as Mac>::new_from_slice(b"another secret").unwrap();
    mac.update(b"123456789GET/v2/referral/stats");
    let expected = hex::encode(mac.finalize().into_bytes());
    let sig = compute_signature("another secret", 123456789, "GET", "/v2/referral/stats");
    assert_eq!(sig, expected);
}

#[test]
fn timestamp_change_changes_signature() {
    let sig = compute_signature("s", 1001, "GET", "/v2/referral/stats");
    assert_eq!(
        sig,
        "8cb111e31b01bd9cf4cb31a4b2f4ab1ba00c779466b5b31ef9ee916e589acf56"
    );
    assert_ne!(sig, VECTOR);
}

#[test]
fn method_change_changes_signature() {
    let sig = compute_signature("s", 1000, "POST", "/v2/referral/stats");
    assert_eq!(
        sig,
        "8b9a70f355761d622c3a2203e6b074c0681a70b5052568b510cbc173c8e70b55"
    );
    assert_ne!(sig, VECTOR);
}

#[test]
fn path_change_changes_signature() {
    let sig = compute_signature("s", 1000, "GET", "/v2/referral/fees");
    assert_eq!(
        sig,
        "0d90c09ab3e9f77cb058c49fe116d309961a3d02b0935bebec94d25fd61ffb34"
    );
    assert_ne!(sig, VECTOR);
}

#[test]
fn minimal_inputs_signature() {
    let sig = compute_signature("secret", 0, "GET", "/");
    assert_eq!(
        sig,
        "4437b510e9190d865d58f31cfa416d9798228fbfcd20fe713ba79267a78f3632"
    );
}

#[test]
fn signing_message_is_exact_concatenation() {
    let msg = build_signing_message(1000, "GET", "/v2/referral/stats");
    assert_eq!(msg, "1000GET/v2/referral/stats");
    let msg = build_signing_message(0, "DELETE", "/x");
    assert_eq!(msg, "0DELETE/x");
}

#[test]
fn decimal_rendering() {
    assert_eq!(u64_to_dec(0), "0");
    assert_eq!(u64_to_dec(7), "7");
    assert_eq!(u64_to_dec(10), "10");
    assert_eq!(u64_to_dec(1000), "1000");
    assert_eq!(u64_to_dec(u64::MAX), "18446744073709551615");
}
