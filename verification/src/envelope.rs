use vstd::prelude::*;
use crate::errors::GatewayError;

verus! {

/// Which blockchain a lookup targets; fixed by the route that received it.
#[derive(Clone, Copy, PartialEq, Eq, Structural)]
pub enum Chain {
    Ethereum,
    Polygon,
    Bsc,
    Solana,
}

/// The message a chain's route puts in the envelope on success.
pub open spec fn success_message(chain: Chain) -> Seq<char> {
    match chain {
        Chain::Ethereum => "Ethereum Transaction found"@,
        Chain::Polygon => "Polygon Transaction found"@,
        Chain::Bsc => "BSC Transaction found"@,
        Chain::Solana => "Solana Transaction found"@,
    }
}

/// The uniform reply: numeric status code, human-readable message, and the
/// optional payload passed through from upstream.
pub struct ApiResponse {
    pub status_code: u16,
    pub message: String,
    pub data: Option<serde_json::Value>,
}

/// What a reply holds, as a mathematical value: the three envelope fields.
pub struct ReplyModel {
    pub status: int,
    pub message: Seq<char>,
    pub data: Option<serde_json::Value>,
}

/// The envelope a transaction route owes for a given lookup outcome:
/// success wraps the payload under status 200 with the chain's message;
/// any failure becomes status 500 with the error's description and no data.
pub open spec fn reply_model(chain: Chain, outcome: Result<serde_json::Value, GatewayError>) -> ReplyModel {
    match outcome {
        Ok(v) => ReplyModel { status: 200, message: success_message(chain), data: Some(v) },
        Err(e) => ReplyModel { status: 500, message: e.text(), data: None },
    }
}

/// Whether a concrete reply carries exactly what a model prescribes.
pub open spec fn matches_model(r: ApiResponse, m: ReplyModel) -> bool {
    &&& r.status_code as int == m.status
    &&& r.message@ == m.message
    &&& r.data == m.data
}

/// Builds the success envelope: status 200, the chain's message, the payload.
pub fn success_reply(chain: Chain, data: serde_json::Value) -> (r: ApiResponse)
    ensures
        r.status_code == 200,
        r.message@ == success_message(chain),
        r.data == Some(data),
{
    let message = match chain {
        Chain::Ethereum => "Ethereum Transaction found".to_owned(),
        Chain::Polygon => "Polygon Transaction found".to_owned(),
        Chain::Bsc => "BSC Transaction found".to_owned(),
        Chain::Solana => "Solana Transaction found".to_owned(),
    };
    ApiResponse { status_code: 200, message, data: Some(data) }
}

/// Builds the failure envelope: status 500, the error's description, no data.
pub fn failure_reply(error: &GatewayError) -> (r: ApiResponse)
    ensures
        r.status_code == 500,
        r.message@ == error.text(),
        r.message@.len() > 0,
        r.data is None,
{
    let message = error.describe();
    ApiResponse { status_code: 500, message, data: None }
}

/// Wraps a lookup outcome the way every transaction route does.
pub fn transaction_reply(chain: Chain, outcome: Result<serde_json::Value, GatewayError>) -> (r: ApiResponse)
    ensures
        matches_model(r, reply_model(chain, outcome)),
        outcome is Err ==> r.message@.len() > 0,
{
    match outcome {
        Ok(data) => success_reply(chain, data),
        Err(e) => failure_reply(&e),
    }
}

/// A lookup is idempotent at the envelope level: two replies built from the
/// same route and the same upstream outcome agree in every field.
pub proof fn lemma_reply_idempotent(
    chain: Chain,
    outcome: Result<serde_json::Value, GatewayError>,
    r1: ApiResponse,
    r2: ApiResponse,
)
    requires
        matches_model(r1, reply_model(chain, outcome)),
        matches_model(r2, reply_model(chain, outcome)),
    ensures
        r1.status_code == r2.status_code,
        r1.message@ == r2.message@,
        r1.data == r2.data,
{
}

} // verus!
