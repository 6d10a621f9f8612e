use referral_stats::errors::ApiError;
use referral_stats::response::parse_response_body;

#[test]
fn malformed_body_is_parse_error() {
    let r = parse_response_body("{\"stats\": ");
    assert!(matches!(r, Err(ApiError::ParseError)));
}

#[test]
fn empty_body_is_parse_error() {
    let r = parse_response_body("");
    assert!(matches!(r, Err(ApiError::ParseError)));
}

#[test]
fn valid_document_is_parsed_exactly() {
    let body = "{\"referral\":\"partner\",\"fees\":21,\"nested\":{\"ok\":true}}";
    let v = parse_response_body(body).unwrap();
    assert_eq!(v.get("referral").unwrap().as_str(), Some("partner"));
    assert_eq!(v.get("fees").unwrap().as_i64(), Some(21));
    assert_eq!(
        v.get("nested").unwrap().get("ok").unwrap().as_bool(),
        Some(true)
    );
    // Echoing the document through the serializer and back gives the same value.
    let echoed = serde_json::to_string(&v).unwrap();
    let again = parse_response_body(&echoed).unwrap();
    assert_eq!(v, again);
}

#[test]
fn scalar_document_is_valid() {
    let v = parse_response_body("42").unwrap();
    assert_eq!(v.as_i64(), Some(42));
}
