//! Dispatcher behaviour over configured registries.

use cosmwasm_std::Api;
use cw_test_harness::dispatch::{MockResponse, QueryEnvelope, QueryError, WasmMockQuerier};
use cw_test_harness::encoding::to_length_prefixed;
use cw_test_harness::registry::{AssetInfo, PairRecord, PoolType};

fn balance_query_bytes(holder: &str) -> Vec<u8> {
    cosmwasm_std::to_json_vec(&cw20::Cw20QueryMsg::Balance { address: holder.to_string() })
        .unwrap()
}

fn querier_with_balances() -> WasmMockQuerier {
    let mut q = WasmMockQuerier::new();
    q.with_token_balances(vec![(
        "tokenA".to_string(),
        vec![("alice".to_string(), 100u128)],
    )]);
    q
}

fn pair_record() -> PairRecord {
    PairRecord {
        asset_infos: (
            AssetInfo::NativeToken {
                denom: "uusd".to_string(),
            },
            AssetInfo::NativeToken {
                denom: "uusd".to_string(),
            },
        ),
        contract_addr: "pairx_contract".to_string(),
        liquidity_token: "pairx_lp".to_string(),
        pool_type: PoolType::Xyk,
    }
}

#[test]
fn balance_query_returns_configured_amount() {
    let q = querier_with_balances();
    let env = QueryEnvelope::Smart {
        contract_addr: "tokenA".to_string(),
        msg: balance_query_bytes("alice"),
    };
    match q.handle_query(&env) {
        Ok(MockResponse::Balance { amount }) => assert_eq!(amount, 100),
        other => panic!("unexpected outcome: {:?}", other),
    }
}

#[test]
fn balance_query_returns_zero_for_unknown_holder() {
    let q = querier_with_balances();
    let env = QueryEnvelope::Smart {
        contract_addr: "tokenA".to_string(),
        msg: balance_query_bytes("bob"),
    };
    match q.handle_query(&env) {
        Ok(MockResponse::Balance { amount }) => assert_eq!(amount, 0),
        other => panic!("unexpected outcome: {:?}", other),
    }
}

#[test]
fn balance_query_errors_for_unknown_contract() {
    let q = querier_with_balances();
    let env = QueryEnvelope::Smart {
        contract_addr: "tokenB".to_string(),
        msg: balance_query_bytes("alice"),
    };
    match q.handle_query(&env) {
        Err(QueryError::NoBalanceInfo { contract_addr }) => assert_eq!(contract_addr, "tokenB"),
        other => panic!("unexpected outcome: {:?}", other),
    }
}

#[test]
fn exceptional_token_always_reports_zero_balance() {
    let q = WasmMockQuerier::new();
    let env = QueryEnvelope::Smart {
        contract_addr: "exceptional_token_without_normal_balance".to_string(),
        msg: balance_query_bytes("alice"),
    };
    match q.handle_query(&env) {
        Ok(MockResponse::Balance { amount }) => assert_eq!(amount, 0),
        other => panic!("unexpected outcome: {:?}", other),
    }
}

#[test]
fn unrecognised_message_for_generic_target_is_unhandled() {
    let q = querier_with_balances();
    let env = QueryEnvelope::Smart {
        contract_addr: "tokenA".to_string(),
        msg: b"{\"token_info\":{}}".to_vec(),
    };
    assert!(matches!(
        q.handle_query(&env),
        Err(QueryError::UnhandledMockCase)
    ));
}

#[test]
fn lending_market_epoch_state_is_canned() {
    let q = WasmMockQuerier::new();
    let env = QueryEnvelope::Smart {
        contract_addr: "anchor_mm".to_string(),
        msg: b"{\"epoch_state\":{}}".to_vec(),
    };
    match q.handle_query(&env) {
        Ok(MockResponse::EpochState { text }) => {
            assert_eq!(text, "Mocked the epoch state call")
        }
        other => panic!("unexpected outcome: {:?}", other),
    }
}

#[test]
fn lending_market_other_message_reports_zero_balance() {
    let q = WasmMockQuerier::new();
    let env = QueryEnvelope::Smart {
        contract_addr: "anchor_mm".to_string(),
        msg: balance_query_bytes("alice"),
    };
    match q.handle_query(&env) {
        Ok(MockResponse::Balance { amount }) => assert_eq!(amount, 0),
        other => panic!("unexpected outcome: {:?}", other),
    }
}

#[test]
fn lp_token_pool_query_is_canned() {
    let q = WasmMockQuerier::new();
    let env = QueryEnvelope::Smart {
        contract_addr: "astro_based_lp_token".to_string(),
        msg: b"{\"pool\":{}}".to_vec(),
    };
    match q.handle_query(&env) {
        Ok(MockResponse::Pool {
            asset_a_denom,
            asset_a_amount,
            asset_b_denom,
            asset_b_amount,
            total_share,
        }) => {
            assert_eq!(asset_a_denom, "whale");
            assert_eq!(asset_a_amount, 10000);
            assert_eq!(asset_b_denom, "uusd");
            assert_eq!(asset_b_amount, 10000);
            assert_eq!(total_share, 1000);
        }
        other => panic!("unexpected outcome: {:?}", other),
    }
}

#[test]
fn lp_token_other_message_returns_canned_pair_metadata() {
    let q = WasmMockQuerier::new();
    let env = QueryEnvelope::Smart {
        contract_addr: "astro_based_lp_token".to_string(),
        msg: b"{\"pair\":{}}".to_vec(),
    };
    match q.handle_query(&env) {
        Ok(MockResponse::PairMetadata { record }) => {
            assert_eq!(record.contract_addr, "PAIR0000");
            assert_eq!(record.liquidity_token, "liqtoken");
            assert!(matches!(record.pool_type, PoolType::Xyk));
            match &record.asset_infos.0 {
                AssetInfo::Token { contract_addr } => assert_eq!(contract_addr, "bluna"),
                other => panic!("unexpected asset: {:?}", other),
            }
            match &record.asset_infos.1 {
                AssetInfo::NativeToken { denom } => assert_eq!(denom, "uusd"),
                other => panic!("unexpected asset: {:?}", other),
            }
        }
        other => panic!("unexpected outcome: {:?}", other),
    }
}

#[test]
fn registry_role_answers_any_raw_key() {
    let q = WasmMockQuerier::new();
    let env = QueryEnvelope::Raw {
        contract_addr: "registry".to_string(),
        key: b"anything_at_all".to_vec(),
    };
    match q.handle_query(&env) {
        Ok(MockResponse::RegistryValue { text }) => assert_eq!(text, "mocked_registry_value"),
        other => panic!("unexpected outcome: {:?}", other),
    }
}

#[test]
fn raw_pair_info_lookup_returns_canonicalized_record() {
    let mut q = WasmMockQuerier::new();
    q.with_terraswap_pairs(vec![("pairX".to_string(), pair_record())]);
    let env = QueryEnvelope::Raw {
        contract_addr: "pairX".to_string(),
        key: to_length_prefixed(b"pair_info"),
    };
    match q.handle_query(&env) {
        Ok(MockResponse::RawPairInfo {
            contract_addr,
            liquidity_token,
            asset_infos,
            asset_decimals,
            pool_type,
        }) => {
            let api = cosmwasm_std::testing::MockApi::default();
            let expected_contract = api.addr_canonicalize("pairx_contract").unwrap();
            let expected_lp = api.addr_canonicalize("pairx_lp").unwrap();
            assert_eq!(contract_addr, expected_contract.as_slice().to_vec());
            assert_eq!(liquidity_token, expected_lp.as_slice().to_vec());
            assert!(matches!(pool_type, PoolType::Xyk));
            assert_eq!(asset_decimals, (0, 0));
            match &asset_infos.0 {
                AssetInfo::NativeToken { denom } => assert_eq!(denom, "uusd"),
                other => panic!("unexpected asset: {:?}", other),
            }
        }
        other => panic!("unexpected outcome: {:?}", other),
    }
}

#[test]
fn raw_pair_info_lookup_errors_for_unknown_contract() {
    let mut q = WasmMockQuerier::new();
    q.with_terraswap_pairs(vec![("pairX".to_string(), pair_record())]);
    let env = QueryEnvelope::Raw {
        contract_addr: "pairY".to_string(),
        key: to_length_prefixed(b"pair_info"),
    };
    match q.handle_query(&env) {
        Err(QueryError::PairInfoNotFound { contract_addr }) => assert_eq!(contract_addr, "pairY"),
        other => panic!("unexpected outcome: {:?}", other),
    }
}

#[test]
fn unknown_raw_key_is_unhandled() {
    let mut q = WasmMockQuerier::new();
    q.with_terraswap_pairs(vec![("pairX".to_string(), pair_record())]);
    let env = QueryEnvelope::Raw {
        contract_addr: "pairX".to_string(),
        key: b"other_key".to_vec(),
    };
    assert!(matches!(
        q.handle_query(&env),
        Err(QueryError::UnhandledMockCase)
    ));
}

#[test]
fn native_requests_are_forwarded() {
    let q = WasmMockQuerier::new();
    assert!(matches!(
        q.handle_query(&QueryEnvelope::Other),
        Ok(MockResponse::Forwarded)
    ));
}

#[test]
fn pair_info_key_matches_storage_convention() {
    assert_eq!(
        cw_test_harness::dispatch::pair_info_storage_key(),
        cosmwasm_storage::to_length_prefixed(b"pair_info").to_vec()
    );
}

#[test]
fn raw_pair_info_lookup_passes_token_assets_through() {
    let mut q = WasmMockQuerier::new();
    let record = PairRecord {
        asset_infos: (
            AssetInfo::Token {
                contract_addr: "anchor_token".to_string(),
            },
            AssetInfo::NativeToken {
                denom: "uusd".to_string(),
            },
        ),
        contract_addr: "pairz_contract".to_string(),
        liquidity_token: "pairz_lp".to_string(),
        pool_type: PoolType::Stable,
    };
    q.with_terraswap_pairs(vec![("pairZ".to_string(), record)]);
    let env = QueryEnvelope::Raw {
        contract_addr: "pairZ".to_string(),
        key: to_length_prefixed(b"pair_info"),
    };
    match q.handle_query(&env) {
        Ok(MockResponse::RawPairInfo {
            asset_infos,
            pool_type,
            ..
        }) => {
            assert!(matches!(pool_type, PoolType::Stable));
            match &asset_infos.0 {
                AssetInfo::Token { contract_addr } => assert_eq!(contract_addr, "anchor_token"),
                other => panic!("unexpected asset: {:?}", other),
            }
        }
        other => panic!("unexpected outcome: {:?}", other),
    }
}

#[test]
fn raw_pair_info_lookup_rejects_uncanonicalizable_addresses() {
    // the mock chain API has no canonical form for addresses shorter than
    // three bytes, whether the pair's own, its liquidity token's, or a
    // token-typed asset's
    let short_lp = PairRecord {
        liquidity_token: "ab".to_string(),
        ..pair_record()
    };
    let short_asset = PairRecord {
        asset_infos: (
            AssetInfo::Token {
                contract_addr: "ab".to_string(),
            },
            AssetInfo::NativeToken {
                denom: "uusd".to_string(),
            },
        ),
        ..pair_record()
    };
    for record in [short_lp, short_asset] {
        let mut q = WasmMockQuerier::new();
        q.with_terraswap_pairs(vec![("pairX".to_string(), record)]);
        let env = QueryEnvelope::Raw {
            contract_addr: "pairX".to_string(),
            key: to_length_prefixed(b"pair_info"),
        };
        assert!(matches!(
            q.handle_query(&env),
            Err(QueryError::UnhandledMockCase)
        ));
    }
}
