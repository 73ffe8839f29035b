use vstd::prelude::*;
use crate::errors::GatewayError;

verus! {

/// A Solana transaction signature, carried opaquely to the RPC call.
#[verifier::external_type_specification]
#[verifier::external_body]
pub struct ExSignature(solana_sdk::signature::Signature);

/// The std error type behind `TryFrom<&[u8]> for Signature`; declared only so
/// the signature type itself can be.
#[verifier::external_type_specification]
#[verifier::external_body]
pub struct ExTryFromSliceError(core::array::TryFromSliceError);

/// The error `Signature::from_str` reports for a malformed string.
#[verifier::external_type_specification]
#[verifier::external_body]
pub struct ExParseSignatureError(solana_sdk::signature::ParseSignatureError);

/// Whether a string is a well-formed Solana transaction signature: base-58
/// text of at most 88 bytes that decodes to exactly 64 bytes, as
/// `Signature::from_str` accepts it.
pub uninterp spec fn is_valid_signature(s: Seq<char>) -> bool;

/// Relies on solana_sdk::signature::Signature::from_str: the outcome is a
/// function of the string alone, and parsing succeeds exactly on well-formed
/// base-58 signatures.
#[verifier::external_body]
fn parse_signature_str(s: &str) -> (r: Result<
    solana_sdk::signature::Signature,
    solana_sdk::signature::ParseSignatureError,
>)
    ensures
        r is Ok <==> is_valid_signature(s@),
{
    <solana_sdk::signature::Signature as core::str::FromStr>::from_str(s)
}

/// Checks a transaction-signature string: the parsed signature, ready for the
/// RPC lookup, or the gateway's invalid-input error for a malformed one.
pub fn check_signature(s: &str) -> (r: Result<solana_sdk::signature::Signature, GatewayError>)
    ensures
        r is Ok <==> is_valid_signature(s@),
        !is_valid_signature(s@) ==> (r matches Err(e) && e matches GatewayError::InvalidInput(d)
            && d@ == "could not parse the transaction signature"@ && e.text().len() > 0),
{
    match parse_signature_str(s) {
        Ok(signature) => Ok(signature),
        Err(_) => {
            let error = GatewayError::InvalidInput(
                "could not parse the transaction signature".to_owned(),
            );
            proof {
                error.lemma_text_nonempty();
            }
            Err(error)
        },
    }
}

} // verus!
