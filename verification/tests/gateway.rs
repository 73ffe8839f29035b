use chain_gateway::balances::{
    balance_entry, check_pubkey, collect_balances, decimal_string, sol_amount_string,
    BalanceReport, LookupOutcome,
};
use chain_gateway::envelope::{failure_reply, success_reply, transaction_reply, Chain};
use chain_gateway::errors::GatewayError;
use chain_gateway::explorer::{decode_explorer_body, explorer_url};
use chain_gateway::solana::check_signature;

const WRAPPED_SOL_KEY: &str = "So11111111111111111111111111111111111111112";
const VOTE_PROGRAM_KEY: &str = "Vote111111111111111111111111111111111111111";
const SYSTEM_PROGRAM_KEY: &str = "11111111111111111111111111111111";

fn sample_payload() -> serde_json::Value {
    let mut result = serde_json::Map::new();
    result.insert(
        "hash".to_string(),
        serde_json::Value::String("0xabc".to_string()),
    );
    let mut body = serde_json::Map::new();
    body.insert("result".to_string(), serde_json::Value::Object(result));
    serde_json::Value::Object(body)
}

#[test]
fn ethereum_success_envelope_wraps_payload() {
    let payload = sample_payload();
    let reply = transaction_reply(Chain::Ethereum, Ok(payload.clone()));
    assert_eq!(reply.status_code, 200);
    assert_eq!(reply.message, "Ethereum Transaction found");
    assert_eq!(reply.data, Some(payload));
}

#[test]
fn polygon_and_bsc_success_messages() {
    let payload = serde_json::Value::Bool(true);
    let polygon = transaction_reply(Chain::Polygon, Ok(payload.clone()));
    assert_eq!(polygon.status_code, 200);
    assert_eq!(polygon.message, "Polygon Transaction found");
    assert_eq!(polygon.data, Some(payload.clone()));
    let bsc = transaction_reply(Chain::Bsc, Ok(payload.clone()));
    assert_eq!(bsc.message, "BSC Transaction found");
    let solana = transaction_reply(Chain::Solana, Ok(payload.clone()));
    assert_eq!(solana.message, "Solana Transaction found");
}

#[test]
fn upstream_failure_gives_500_with_message_and_no_data() {
    let outcome = Err(GatewayError::Upstream("connection refused".to_string()));
    let reply = transaction_reply(Chain::Ethereum, outcome);
    assert_eq!(reply.status_code, 500);
    assert!(reply.data.is_none());
    assert!(!reply.message.is_empty());
    assert_eq!(reply.message, "upstream failure: connection refused");
}

#[test]
fn error_descriptions_name_each_failure() {
    let invalid = GatewayError::InvalidInput("bad hash".to_string());
    assert_eq!(invalid.describe(), "invalid input: bad hash");
    let upstream = GatewayError::Upstream("timed out".to_string());
    assert_eq!(upstream.describe(), "upstream failure: timed out");
    let config = GatewayError::Config("ETHERSCAN_API_KEY".to_string());
    assert_eq!(config.describe(), "missing configuration: ETHERSCAN_API_KEY");
}

#[test]
fn success_and_failure_constructors() {
    let payload = serde_json::Value::Null;
    let ok = success_reply(Chain::Bsc, payload.clone());
    assert_eq!(ok.status_code, 200);
    assert_eq!(ok.data, Some(payload));
    let err = failure_reply(&GatewayError::Config("BSCSCAN_API_KEY".to_string()));
    assert_eq!(err.status_code, 500);
    assert!(err.data.is_none());
}

#[test]
fn explorer_urls_match_each_chain() {
    assert_eq!(
        explorer_url(Chain::Ethereum, "0x123", "KEY"),
        "https://api.etherscan.io/api?module=proxy&action=eth_getTransactionByHash&txhash=0x123&apikey=KEY"
    );
    assert_eq!(
        explorer_url(Chain::Polygon, "0x456", "PKEY"),
        "https://api.polygonscan.com/api?module=proxy&action=eth_getTransactionByHash&txhash=0x456&apikey=PKEY"
    );
    assert_eq!(
        explorer_url(Chain::Bsc, "0x789", "BKEY"),
        "https://api.bscscan.com/api?module=proxy&action=eth_getTransactionByHash&txhash=0x789&apikey=BKEY"
    );
}

#[test]
fn decode_explorer_body_passes_json_through() {
    let body = "{\"status\":\"1\"}".to_string();
    let decoded = decode_explorer_body(Ok(body)).expect("valid JSON must decode");
    let mut expected = serde_json::Map::new();
    expected.insert(
        "status".to_string(),
        serde_json::Value::String("1".to_string()),
    );
    assert_eq!(decoded, serde_json::Value::Object(expected));
}

#[test]
fn decode_explorer_body_rejects_bad_json_as_upstream() {
    let decoded = decode_explorer_body(Ok("not json".to_string()));
    match decoded {
        Err(GatewayError::Upstream(detail)) => assert!(!detail.is_empty()),
        other => panic!("expected an upstream failure, got {:?}", other.is_ok()),
    }
}

#[test]
fn decode_explorer_body_keeps_network_error_text() {
    let decoded = decode_explorer_body(Err("connection reset".to_string()));
    match decoded {
        Err(GatewayError::Upstream(detail)) => assert_eq!(detail, "connection reset"),
        _ => panic!("expected an upstream failure"),
    }
}

#[test]
fn invalid_signature_gives_parse_failure_envelope() {
    let checked = check_signature("not-a-signature");
    let error = checked.err().expect("the string must not parse");
    let reply = transaction_reply(Chain::Solana, Err(error));
    assert_eq!(reply.status_code, 500);
    assert!(reply.data.is_none());
    assert_eq!(
        reply.message,
        "invalid input: could not parse the transaction signature"
    );
}

#[test]
fn valid_signature_parses() {
    let all_zero_signature: String = "1".repeat(64);
    assert!(check_signature(&all_zero_signature).is_ok());
    let too_long: String = "1".repeat(89);
    assert!(check_signature(&too_long).is_err());
}

#[test]
fn pubkey_parsing_accepts_known_keys_and_rejects_garbage() {
    assert!(check_pubkey(SYSTEM_PROGRAM_KEY).is_some());
    assert!(check_pubkey(WRAPPED_SOL_KEY).is_some());
    assert!(check_pubkey("not-a-valid-key").is_none());
    assert!(check_pubkey("").is_none());
}

#[test]
fn sol_amounts_render_in_whole_coins() {
    assert_eq!(sol_amount_string(1_500_000_000), "1.5");
    assert_eq!(sol_amount_string(2_000_000_000), "2");
    assert_eq!(sol_amount_string(1), "0.000000001");
    assert_eq!(sol_amount_string(1_000_000_001), "1.000000001");
    assert_eq!(sol_amount_string(123), "0.000000123");
    assert_eq!(sol_amount_string(1_230_000_000), "1.23");
    assert_eq!(sol_amount_string(0), "0");
    assert_eq!(sol_amount_string(u64::MAX), "18446744073.709551615");
    assert_eq!(decimal_string(0), "0");
    assert_eq!(decimal_string(90123), "90123");
}

#[test]
fn balance_entry_formats_positive_and_skips_zero() {
    assert_eq!(balance_entry(SYSTEM_PROGRAM_KEY, 0), None);
    assert_eq!(
        balance_entry(SYSTEM_PROGRAM_KEY, 1_500_000_000),
        Some(format!("{}: 1.5 SOL", SYSTEM_PROGRAM_KEY))
    );
}

#[test]
fn balances_keep_only_positive_entries() {
    let reports = vec![
        BalanceReport {
            key: WRAPPED_SOL_KEY.to_string(),
            lookup: LookupOutcome::Lamports(1_500_000_000),
        },
        BalanceReport {
            key: "not-a-valid-key".to_string(),
            lookup: LookupOutcome::InvalidKey,
        },
        BalanceReport {
            key: VOTE_PROGRAM_KEY.to_string(),
            lookup: LookupOutcome::Lamports(0),
        },
    ];
    let lines = collect_balances(&reports);
    assert_eq!(lines, vec![format!("{}: 1.5 SOL", WRAPPED_SOL_KEY)]);
}

#[test]
fn balances_preserve_input_order() {
    let reports = vec![
        BalanceReport {
            key: "c".to_string(),
            lookup: LookupOutcome::Lamports(3_000_000_000),
        },
        BalanceReport {
            key: "a".to_string(),
            lookup: LookupOutcome::Unavailable,
        },
        BalanceReport {
            key: "b".to_string(),
            lookup: LookupOutcome::Lamports(1),
        },
        BalanceReport {
            key: "d".to_string(),
            lookup: LookupOutcome::Lamports(2_500_000_000),
        },
    ];
    let lines = collect_balances(&reports);
    assert_eq!(
        lines,
        vec![
            "c: 3 SOL".to_string(),
            "b: 0.000000001 SOL".to_string(),
            "d: 2.5 SOL".to_string(),
        ]
    );
}

#[test]
fn repeated_lookups_give_the_same_reply() {
    let payload = sample_payload();
    let first = transaction_reply(Chain::Polygon, Ok(payload.clone()));
    let second = transaction_reply(Chain::Polygon, Ok(payload.clone()));
    assert_eq!(first.status_code, second.status_code);
    assert_eq!(first.message, second.message);
    assert_eq!(first.data, second.data);

    let reports = vec![BalanceReport {
        key: SYSTEM_PROGRAM_KEY.to_string(),
        lookup: LookupOutcome::Lamports(42),
    }];
    assert_eq!(collect_balances(&reports), collect_balances(&reports));
}
