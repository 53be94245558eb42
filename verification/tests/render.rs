use murray_cli::cmd::Commands;
use murray_cli::dispatch::{route, subsystem, BackingCall, Subsystem};
use murray_cli::outcome::{normalize, FailureDetail, UnifiedError};
use murray_cli::render::{format_error, render_result};
use serde_json::Value;

#[test]
fn serialization_error_renders_one_line() {
    assert_eq!(
        format_error(&UnifiedError::Serialization),
        "Something went wrong while processing the request: Serialization"
    );
}

#[test]
fn blockchain_error_renders_variant_and_detail() {
    let e = UnifiedError::Blockchain(FailureDetail::APIError("boom".to_string()));
    assert_eq!(
        format_error(&e),
        "Something went wrong while processing the request: Blockchain(APIError(\"boom\"))"
    );
}

#[test]
fn lightning_error_renders_variant_and_detail() {
    let e = UnifiedError::Lightning(FailureDetail::BadRequest("timed out".to_string()));
    assert_eq!(
        format_error(&e),
        "Something went wrong while processing the request: Lightning(BadRequest(\"timed out\"))"
    );
}

#[test]
fn price_error_renders_variant_and_detail() {
    let e = UnifiedError::Price(FailureDetail::InvalidURLParams("bad".to_string()));
    assert_eq!(
        format_error(&e),
        "Something went wrong while processing the request: Price(InvalidURLParams(\"bad\"))"
    );
}

#[test]
fn json_parse_error_detail_is_kept_verbatim() {
    let e = UnifiedError::Blockchain(FailureDetail::JSONParseError("at line 3".to_string()));
    let line = format_error(&e);
    assert!(line.contains("JSONParseError(\"at line 3\")"));
}

#[test]
fn success_renders_as_pretty_printed_payload() {
    let mut m = serde_json::Map::new();
    m.insert("price".to_string(), Value::String("60000".to_string()));
    m.insert("tiers".to_string(), Value::Array(vec![Value::from(1u64), Value::from(2u64)]));
    let v = Value::Object(m);
    let expected = serde_json::to_string_pretty(&v).unwrap();
    assert_eq!(render_result(Ok(v)), expected);
}

#[test]
fn pretty_printing_indents_nested_fields() {
    let mut inner = serde_json::Map::new();
    inner.insert("a".to_string(), Value::from(1u64));
    let mut m = serde_json::Map::new();
    m.insert("x".to_string(), Value::Object(inner));
    assert_eq!(
        render_result(Ok(Value::Object(m))),
        "{\n  \"x\": {\n    \"a\": 1\n  }\n}"
    );
}

#[test]
fn success_scalar_renders_unwrapped() {
    assert_eq!(render_result(Ok(Value::Bool(true))), "true");
}

#[test]
fn failure_renders_through_render_result() {
    let e = UnifiedError::Price(FailureDetail::APIError("no quote".to_string()));
    assert_eq!(
        render_result(Err(e)),
        "Something went wrong while processing the request: Price(APIError(\"no quote\"))"
    );
}

#[test]
fn broadcast_rejection_flows_to_one_diagnostic_line() {
    let call = route(Commands::BroadcastTransaction { tx_hex: "0100".to_string() });
    assert_eq!(call, BackingCall::PostTransaction { tx_hex: "0100".to_string() });
    let sys = subsystem(&call);
    assert_eq!(sys, Subsystem::Blockchain);
    let rejection = FailureDetail::BadRequest("transaction rejected".to_string());
    let normalized = normalize(sys, Err(rejection));
    let line = render_result(normalized);
    assert_eq!(
        line,
        "Something went wrong while processing the request: \
         Blockchain(BadRequest(\"transaction rejected\"))"
    );
}
