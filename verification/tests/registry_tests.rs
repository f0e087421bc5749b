//! Registry construction and lookup behaviour.

use cw_test_harness::dispatch::{MockResponse, QueryEnvelope, QueryError, WasmMockQuerier};

fn balance_query_bytes(holder: &str) -> Vec<u8> {
    cosmwasm_std::to_json_vec(&cw20::Cw20QueryMsg::Balance { address: holder.to_string() })
        .unwrap()
}

fn entries() -> Vec<(String, Vec<(String, u128)>)> {
    vec![
        ("tokenA".to_string(), vec![("alice".to_string(), 100u128)]),
        ("tokenB".to_string(), vec![]),
    ]
}

fn query(q: &WasmMockQuerier, contract: &str, holder: &str) -> Result<MockResponse, QueryError> {
    q.handle_query(&QueryEnvelope::Smart {
        contract_addr: contract.to_string(),
        msg: balance_query_bytes(holder),
    })
}

#[test]
fn build_is_idempotent_under_identical_input() {
    let mut q1 = WasmMockQuerier::new();
    q1.with_token_balances(entries());
    let mut q2 = WasmMockQuerier::new();
    q2.with_token_balances(entries());
    for (contract, holder) in [
        ("tokenA", "alice"),
        ("tokenA", "bob"),
        ("tokenB", "alice"),
        ("tokenC", "alice"),
    ] {
        let r1 = format!("{:?}", query(&q1, contract, holder));
        let r2 = format!("{:?}", query(&q2, contract, holder));
        assert_eq!(r1, r2);
    }
}

#[test]
fn rebuilding_replaces_contents_wholesale() {
    let mut q = WasmMockQuerier::new();
    q.with_token_balances(entries());
    q.with_token_balances(vec![(
        "tokenC".to_string(),
        vec![("carol".to_string(), 7u128)],
    )]);
    // the old contents are discarded ...
    assert!(matches!(
        query(&q, "tokenA", "alice"),
        Err(QueryError::NoBalanceInfo { .. })
    ));
    // ... and only the new entries answer
    match query(&q, "tokenC", "carol") {
        Ok(MockResponse::Balance { amount }) => assert_eq!(amount, 7),
        other => panic!("unexpected outcome: {:?}", other),
    }
}

#[test]
fn later_entries_for_the_same_key_win() {
    let mut q = WasmMockQuerier::new();
    q.with_token_balances(vec![
        ("tokenA".to_string(), vec![("alice".to_string(), 1u128)]),
        (
            "tokenA".to_string(),
            vec![
                ("alice".to_string(), 2u128),
                ("alice".to_string(), 3u128),
            ],
        ),
    ]);
    match query(&q, "tokenA", "alice") {
        Ok(MockResponse::Balance { amount }) => assert_eq!(amount, 3),
        other => panic!("unexpected outcome: {:?}", other),
    }
}

#[test]
fn contract_with_empty_holder_table_is_still_registered() {
    let mut q = WasmMockQuerier::new();
    q.with_token_balances(entries());
    // tokenB has an empty table: a holder query is a legitimate zero, not an
    // unconfigured-contract error
    match query(&q, "tokenB", "alice") {
        Ok(MockResponse::Balance { amount }) => assert_eq!(amount, 0),
        other => panic!("unexpected outcome: {:?}", other),
    }
}
