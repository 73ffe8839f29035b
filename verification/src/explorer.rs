use vstd::prelude::*;
use crate::envelope::Chain;
use crate::errors::GatewayError;
use crate::payload::{is_valid_json, json_value_of, parse_json};

verus! {

/// The explorer GET URL for a chain, up to and including `txhash=`.
/// Ethereum, Polygon and BSC each target a distinct host but share the same
/// query shape; Solana is served by RPC and has no explorer URL.
pub open spec fn explorer_url_prefix(chain: Chain) -> Seq<char>
    recommends
        !(chain is Solana),
{
    match chain {
        Chain::Ethereum => "https://api.etherscan.io/api?module=proxy&action=eth_getTransactionByHash&txhash="@,
        Chain::Polygon => "https://api.polygonscan.com/api?module=proxy&action=eth_getTransactionByHash&txhash="@,
        Chain::Bsc => "https://api.bscscan.com/api?module=proxy&action=eth_getTransactionByHash&txhash="@,
        Chain::Solana => Seq::empty(),
    }
}

/// The full explorer GET URL for one transaction lookup.
pub open spec fn explorer_url_text(chain: Chain, tx_hash: Seq<char>, api_key: Seq<char>) -> Seq<char>
    recommends
        !(chain is Solana),
{
    explorer_url_prefix(chain) + tx_hash + "&apikey="@ + api_key
}

/// Builds the explorer GET URL for a transaction hash and an API key.
pub fn explorer_url(chain: Chain, tx_hash: &str, api_key: &str) -> (r: String)
    requires
        !(chain is Solana),
    ensures
        r@ == explorer_url_text(chain, tx_hash@, api_key@),
{
    let mut url = match chain {
        Chain::Ethereum => "https://api.etherscan.io/api?module=proxy&action=eth_getTransactionByHash&txhash=".to_owned(),
        Chain::Polygon => "https://api.polygonscan.com/api?module=proxy&action=eth_getTransactionByHash&txhash=".to_owned(),
        Chain::Bsc => "https://api.bscscan.com/api?module=proxy&action=eth_getTransactionByHash&txhash=".to_owned(),
        Chain::Solana => unreached(),
    };
    url.append(tx_hash);
    url.append("&apikey=");
    url.append(api_key);
    url
}

/// Interprets what one explorer GET produced: `Ok` with the body the upstream
/// sent, or `Err` with the network error's description. A network failure or
/// a body that is not valid JSON is an upstream failure; a well-formed body
/// passes through verbatim as the payload.
pub fn decode_explorer_body(fetched: Result<String, String>) -> (r: Result<serde_json::Value, GatewayError>)
    ensures
        fetched matches Ok(body) ==> is_valid_json(body@) ==> r == Ok::<serde_json::Value, GatewayError>(json_value_of(body@)),
        fetched matches Ok(body) ==> !is_valid_json(body@) ==> (r matches Err(e) && e is Upstream && e.text().len() > 0),
        fetched matches Err(net) ==> r == Err::<serde_json::Value, GatewayError>(GatewayError::Upstream(net)),
{
    match fetched {
        Ok(body) => {
            match parse_json(body.as_str()) {
                Ok(v) => Ok(v),
                Err(detail) => {
                    let mut msg = "response body is not valid JSON: ".to_owned();
                    msg.append(detail.as_str());
                    let error = GatewayError::Upstream(msg);
                    proof {
                        error.lemma_text_nonempty();
                    }
                    Err(error)
                },
            }
        },
        Err(net) => Err(GatewayError::Upstream(net)),
    }
}

} // verus!
