//! Trusted boundary to `serde_json`.
//!
//! JSON values are opaque to the rest of the crate: they are carried through
//! requests and results unchanged, and the only operations on them are the
//! three wrappers below. The text a value pretty-prints as and the value a
//! text parses to are functions of their argument alone, so each gets a
//! name that the callers' contracts speak of exactly.

use vstd::prelude::*;

use crate::error::AiError;

verus! {

#[verifier::external_type_specification]
#[verifier::external_body]
pub struct ExValue(serde_json::Value);

/// The value `serde_json::from_str::<serde_json::Value>` yields for the
/// text — `None` when it rejects the text; a function of the text alone.
pub uninterp spec fn parsed_json(s: Seq<char>) -> Option<serde_json::Value>;

/// The text `serde_json::to_string_pretty` renders a JSON value as; a
/// function of the value alone.
pub uninterp spec fn pretty_text(v: serde_json::Value) -> Seq<char>;

/// Relies on `serde_json::Value`'s `Clone`: a deep copy equal to the
/// original value.
#[verifier::external_body]
pub fn clone_value(v: &serde_json::Value) -> (r: serde_json::Value)
    ensures
        r == *v,
{
    v.clone()
}

/// Relies on `serde_json::to_string_pretty`: pretty-prints a JSON value.
/// For a `serde_json::Value` argument the call cannot fail — such a value
/// has string map keys and finite numbers, and the writer is in memory —
/// so success is promised.
#[verifier::external_body]
pub fn to_pretty_string(v: &serde_json::Value) -> (r: Result<String, AiError>)
    ensures
        r is Ok,
        r matches Ok(s) ==> s@ == pretty_text(*v),
{
    serde_json::to_string_pretty(v).map_err(|e| AiError::Serialization(e.to_string()))
}

/// Relies on `serde_json::from_str::<serde_json::Value>`: parses the text
/// as JSON, yielding exactly [`parsed_json`] of it; a rejection is reported
/// as a serialization error.
#[verifier::external_body]
pub fn parse_value(s: &str) -> (r: Result<serde_json::Value, AiError>)
    ensures
        (r is Ok) == (parsed_json(s@) is Some),
        r matches Ok(v) ==> parsed_json(s@) == Some(v),
        r matches Err(e) ==> e is Serialization,
{
    serde_json::from_str::<serde_json::Value>(s).map_err(|e| AiError::Serialization(e.to_string()))
}

} // verus!
