//! The result normalizer: folds the outcome of any backing call into one
//! success shape and one error taxonomy.
//!
//! A backing call either produced a payload — already serialized to a
//! generic `serde_json::Value` by the caller that performed the I/O — or
//! failed in its own domain. Every failure detail the backing services
//! raise is a named condition carrying a plain message string, so the
//! library carries it as such, verbatim.

use vstd::prelude::*;

use crate::dispatch::Subsystem;

verus! {

/// The generic structured value a backing payload is serialized into.
/// The library never looks inside one: it is carried through unchanged.
#[verifier::external_type_specification]
#[verifier::external_body]
pub struct ExValue(serde_json::Value);

/// The failure serde_json raises when a payload cannot be represented as
/// a structured value. The library never reads its contents.
#[verifier::external_type_specification]
#[verifier::external_body]
pub struct ExSerdeError(serde_json::Error);

/// The detail of one backing-service failure: which condition was hit,
/// and the message the service attached to it. All three backing domains
/// raise these same four conditions.
#[derive(Clone, Debug, PartialEq, Eq)]
pub enum FailureDetail {
    InvalidURLParams(String),
    BadRequest(String),
    APIError(String),
    JSONParseError(String),
}

/// The unified error: one variant per backing domain, each preserving the
/// original failure detail untouched, plus the one local failure mode — a
/// payload that could not be serialized into the structured-value model.
#[derive(Clone, Debug, PartialEq, Eq)]
pub enum UnifiedError {
    Serialization,
    Blockchain(FailureDetail),
    Lightning(FailureDetail),
    Price(FailureDetail),
}

impl From<serde_json::Error> for UnifiedError {
    fn from(_value: serde_json::Error) -> Self {
        UnifiedError::Serialization
    }
}

impl vstd::std_specs::convert::FromSpecImpl<serde_json::Error> for UnifiedError {
    open spec fn obeys_from_spec() -> bool {
        true
    }

    open spec fn from_spec(v: serde_json::Error) -> Self {
        UnifiedError::Serialization
    }
}

/// Which unified variant a failure of the given subsystem is wrapped in.
pub open spec fn wrap_failure(sys: Subsystem, d: FailureDetail) -> UnifiedError {
    match sys {
        Subsystem::Blockchain => UnifiedError::Blockchain(d),
        Subsystem::Lightning => UnifiedError::Lightning(d),
        Subsystem::Price => UnifiedError::Price(d),
    }
}

/// The detail a unified error preserves, if it carries one.
pub open spec fn detail_of(e: UnifiedError) -> Option<FailureDetail> {
    match e {
        UnifiedError::Serialization => None,
        UnifiedError::Blockchain(d) => Some(d),
        UnifiedError::Lightning(d) => Some(d),
        UnifiedError::Price(d) => Some(d),
    }
}

/// What normalization yields: a successful payload passes through as the
/// very value it arrived as; a payload that resisted serialization
/// becomes the serialization failure; a backing failure is wrapped in the
/// variant of the subsystem that raised it, detail untouched.
pub open spec fn normalize_spec(
    sys: Subsystem,
    outcome: Result<Result<serde_json::Value, serde_json::Error>, FailureDetail>,
) -> Result<serde_json::Value, UnifiedError> {
    match outcome {
        Ok(Ok(v)) => Ok(v),
        Ok(Err(_)) => Err(UnifiedError::Serialization),
        Err(d) => Err(wrap_failure(sys, d)),
    }
}

/// Normalizes the outcome of exactly one backing call against the
/// subsystem it was routed to. Performs zero recovery: every failure is
/// wrapped, unmodified, and handed on.
pub fn normalize(
    sys: Subsystem,
    outcome: Result<Result<serde_json::Value, serde_json::Error>, FailureDetail>,
) -> (r: Result<serde_json::Value, UnifiedError>)
    ensures
        r == normalize_spec(sys, outcome),
{
    match outcome {
        Ok(Ok(v)) => Ok(v),
        Ok(Err(e)) => Err(UnifiedError::from(e)),
        Err(d) => Err(
            match sys {
                Subsystem::Blockchain => UnifiedError::Blockchain(d),
                Subsystem::Lightning => UnifiedError::Lightning(d),
                Subsystem::Price => UnifiedError::Price(d),
            },
        ),
    }
}

/// Law: wrapping a backing failure loses nothing — whichever subsystem
/// raised it, the detail read back out of the unified error is the very
/// detail that went in.
pub proof fn lemma_failure_detail_preserved(sys: Subsystem, d: FailureDetail)
    ensures
        detail_of(wrap_failure(sys, d)) == Some(d),
{
}

/// Law: each backing domain's failure lands in that domain's own variant,
/// carrying the detail itself — a blockchain failure in `Blockchain`, a
/// lightning failure in `Lightning`, a price failure in `Price`, with no
/// truncation and no re-wording.
pub proof fn lemma_failure_wrapped_in_own_domain(d: FailureDetail)
    ensures
        wrap_failure(Subsystem::Blockchain, d) == UnifiedError::Blockchain(d),
        wrap_failure(Subsystem::Lightning, d) == UnifiedError::Lightning(d),
        wrap_failure(Subsystem::Price, d) == UnifiedError::Price(d),
{
}

} // verus!
