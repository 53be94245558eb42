use murray_cli::dispatch::Subsystem;
use murray_cli::outcome::{normalize, FailureDetail, UnifiedError};
use serde_json::Value;

fn sample_object() -> Value {
    let mut m = serde_json::Map::new();
    m.insert("height".to_string(), Value::from(700000u64));
    m.insert("id".to_string(), Value::String("000000000019d6".to_string()));
    m.insert("nested".to_string(), Value::Array(vec![Value::Bool(true), Value::Null]));
    Value::Object(m)
}

fn serde_failure() -> serde_json::Error {
    serde_json::from_str::<Value>("{").unwrap_err()
}

#[test]
fn success_payload_passes_through_unchanged() {
    let v = sample_object();
    let r = normalize(Subsystem::Blockchain, Ok(Ok(v.clone())));
    assert_eq!(r, Ok(v));
}

#[test]
fn unserializable_payload_becomes_serialization_failure() {
    let r = normalize(Subsystem::Blockchain, Ok(Err(serde_failure())));
    assert_eq!(r, Err(UnifiedError::Serialization));
}

#[test]
fn blockchain_failure_is_wrapped_with_detail_verbatim() {
    let d = FailureDetail::APIError("418 I'm a teapot".to_string());
    let r = normalize(Subsystem::Blockchain, Err(d.clone()));
    assert_eq!(r, Err(UnifiedError::Blockchain(d)));
}

#[test]
fn lightning_failure_is_wrapped_with_detail_verbatim() {
    let d = FailureDetail::JSONParseError("expected value".to_string());
    let r = normalize(Subsystem::Lightning, Err(d.clone()));
    assert_eq!(r, Err(UnifiedError::Lightning(d)));
}

#[test]
fn price_failure_is_wrapped_with_detail_verbatim() {
    let d = FailureDetail::InvalidURLParams("bad query".to_string());
    let r = normalize(Subsystem::Price, Err(d.clone()));
    assert_eq!(r, Err(UnifiedError::Price(d)));
}

#[test]
fn bad_request_detail_round_trips() {
    let d = FailureDetail::BadRequest("connection refused".to_string());
    match normalize(Subsystem::Blockchain, Err(d.clone())) {
        Err(UnifiedError::Blockchain(out)) => assert_eq!(out, d),
        other => panic!("unexpected outcome {:?}", other),
    }
}

#[test]
fn unified_error_built_from_serde_error_is_serialization() {
    assert_eq!(UnifiedError::from(serde_failure()), UnifiedError::Serialization);
}
