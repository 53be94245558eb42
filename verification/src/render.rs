//! The output formatter: the one place the library turns a normalized
//! outcome into terminal text.
//!
//! A success renders as the pretty-printed structured payload; a failure
//! renders as a single diagnostic line naming the unified variant and its
//! preserved detail. Both go to the same output stream, and the caller
//! does not vary its termination between the two: printing the text it is
//! handed here is all that is left to it.

use vstd::prelude::*;
use vstd::string::StringExecFns;

use crate::outcome::{FailureDetail, UnifiedError};

verus! {

/// The text a failure detail renders as: the condition's name, then its
/// preserved message, quoted and verbatim.
pub open spec fn detail_text_spec(d: FailureDetail) -> Seq<char> {
    match d {
        FailureDetail::InvalidURLParams(s) => "InvalidURLParams(\""@ + s@ + "\")"@,
        FailureDetail::BadRequest(s) => "BadRequest(\""@ + s@ + "\")"@,
        FailureDetail::APIError(s) => "APIError(\""@ + s@ + "\")"@,
        FailureDetail::JSONParseError(s) => "JSONParseError(\""@ + s@ + "\")"@,
    }
}

/// The text a unified error renders as: the variant's name, wrapping the
/// rendered detail where it carries one.
pub open spec fn variant_text_spec(e: UnifiedError) -> Seq<char> {
    match e {
        UnifiedError::Serialization => "Serialization"@,
        UnifiedError::Blockchain(d) => "Blockchain("@ + detail_text_spec(d) + ")"@,
        UnifiedError::Lightning(d) => "Lightning("@ + detail_text_spec(d) + ")"@,
        UnifiedError::Price(d) => "Price("@ + detail_text_spec(d) + ")"@,
    }
}

/// The single diagnostic line a failure prints as.
pub open spec fn error_line_spec(e: UnifiedError) -> Seq<char> {
    "Something went wrong while processing the request: "@ + variant_text_spec(e)
}

fn detail_text(d: &FailureDetail) -> (r: String)
    ensures
        r@ == detail_text_spec(*d),
{
    let mut t: String;
    match d {
        FailureDetail::InvalidURLParams(s) => {
            t = "InvalidURLParams(\"".to_owned();
            t.append(s.as_str());
        },
        FailureDetail::BadRequest(s) => {
            t = "BadRequest(\"".to_owned();
            t.append(s.as_str());
        },
        FailureDetail::APIError(s) => {
            t = "APIError(\"".to_owned();
            t.append(s.as_str());
        },
        FailureDetail::JSONParseError(s) => {
            t = "JSONParseError(\"".to_owned();
            t.append(s.as_str());
        },
    }
    t.append("\")");
    t
}

/// Renders the single diagnostic line for a unified error: the fixed
/// notice, the variant's name, and the preserved detail, verbatim.
pub fn format_error(e: &UnifiedError) -> (r: String)
    ensures
        r@ == error_line_spec(*e),
{
    let mut line: String = "Something went wrong while processing the request: ".to_owned();
    match e {
        UnifiedError::Serialization => {
            line.append("Serialization");
        },
        UnifiedError::Blockchain(d) => {
            line.append("Blockchain(");
            let dt = detail_text(d);
            line.append(dt.as_str());
            line.append(")");
        },
        UnifiedError::Lightning(d) => {
            line.append("Lightning(");
            let dt = detail_text(d);
            line.append(dt.as_str());
            line.append(")");
        },
        UnifiedError::Price(d) => {
            line.append("Price(");
            let dt = detail_text(d);
            line.append(dt.as_str());
            line.append(")");
        },
    }
    line
}

/// The indented JSON text a structured value pretty-prints as. The
/// value's contents are opaque here, so the text is named rather than
/// written out; it is a function of the value alone.
pub uninterp spec fn pretty_of(v: serde_json::Value) -> Seq<char>;

/// Relies on serde_json::to_string_pretty: pretty-prints a structured
/// value as indented JSON text. On a `serde_json::Value` the call cannot
/// fail — its object keys are strings and its numbers are finite — so the
/// `unwrap` never fires, and its result depends on the value alone — the
/// object map iterates in its own key order — so the text it returns is
/// named `pretty_of`.
#[verifier::external_body]
fn to_pretty(v: &serde_json::Value) -> (r: String)
    ensures
        r@ == pretty_of(*v),
{
    serde_json::to_string_pretty(v).unwrap()
}

/// Renders a normalized outcome: a success as exactly the pretty-printed
/// payload, a failure as exactly its one diagnostic line.
pub fn render_result(outcome: Result<serde_json::Value, UnifiedError>) -> (r: String)
    ensures
        outcome matches Ok(v) ==> r@ == pretty_of(v),
        outcome matches Err(e) ==> r@ == error_line_spec(e),
{
    match outcome {
        Ok(v) => to_pretty(&v),
        Err(e) => format_error(&e),
    }
}

} // verus!
