use vstd::prelude::*;

verus! {

/// The opaque JSON payload carried through the gateway verbatim.
#[verifier::external_type_specification]
#[verifier::external_body]
pub struct ExValue(serde_json::Value);

/// Whether a character sequence is a well-formed JSON document, exactly as
/// `serde_json::from_str::<serde_json::Value>` accepts it.
pub uninterp spec fn is_valid_json(s: Seq<char>) -> bool;

/// The JSON value that a well-formed document denotes, exactly as
/// `serde_json::from_str::<serde_json::Value>` parses it.
pub uninterp spec fn json_value_of(s: Seq<char>) -> serde_json::Value;

/// Relies on serde_json::from_str: the outcome is a function of the text
/// alone, and parsing yields a value exactly when the text is one
/// well-formed JSON document.
#[verifier::external_body]
pub(crate) fn parse_json(s: &str) -> (r: Result<serde_json::Value, String>)
    ensures
        r is Ok <==> is_valid_json(s@),
        r matches Ok(v) ==> v == json_value_of(s@),
{
    serde_json::from_str::<serde_json::Value>(s).map_err(|e| e.to_string())
}

} // verus!
