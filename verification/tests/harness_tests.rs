//! Controller bootstrap and exchange operations against the simulated chain.

use cosmwasm_std::{Addr, Uint128};
use cw_multi_test::Executor;
use cw_test_harness::astroport_controller::AstroportController;
use cw_test_harness::common_integration::{
    advance_n_blocks, advanced_block_numbers, mock_app, store_token_code, AvailablePlatforms,
};
use cw_test_harness::drivers::{withdraw_hook_payload, DexDriver, Driver, ProtocolError};
use cw_test_harness::help::mint_some_anc;
use cw_test_harness::scenarios::{ControllerSlot, SimpleScenario};
use cw_test_harness::terraswap_controller::TerraSwapController;

/// Instantiate a token under the given code with an initial balance for the
/// owner; the message shape is shared by all the cw20 token variants.
fn instantiate_funded_token(
    app: &mut cw_multi_test::App,
    code_id: u64,
    symbol: &str,
    owner: &str,
    supply: u128,
) -> Addr {
    let msg = cw20_base::msg::InstantiateMsg {
        name: format!("token {}", symbol),
        symbol: symbol.to_string(),
        decimals: 6,
        initial_balances: vec![cw20::Cw20Coin {
            address: owner.to_string(),
            amount: Uint128::new(supply),
        }],
        mint: None,
        marketing: None,
    };
    app.instantiate_contract(
        code_id,
        Addr::unchecked(owner),
        &msg,
        &[],
        symbol.to_string(),
        None,
    )
    .unwrap()
}

fn allow(app: &mut cw_multi_test::App, owner: &str, token: &Addr, spender: &str, amount: u128) {
    let msg = cw20::Cw20ExecuteMsg::IncreaseAllowance {
        spender: spender.to_string(),
        amount: Uint128::new(amount),
        expires: None,
    };
    app.execute_contract(Addr::unchecked(owner), token.clone(), &msg, &[])
        .unwrap();
}

fn cw20_balance(app: &cw_multi_test::App, token: &str, holder: &str) -> u128 {
    let r: cw20::BalanceResponse = app
        .wrap()
        .query_wasm_smart(
            Addr::unchecked(token),
            &cw20::Cw20QueryMsg::Balance {
                address: holder.to_string(),
            },
        )
        .unwrap();
    r.balance.u128()
}

#[test]
fn astroport_pool_lifecycle_round_trips() {
    let mut app = mock_app();
    let owner = "owner".to_string();
    let controller = AstroportController::init_contracts(&mut app, &owner).unwrap();
    assert_eq!(controller.addr(), "owner");

    let token_x = controller
        .init_cw20_token(&mut app, &"tokenx".to_string())
        .unwrap();
    let token_y = controller
        .init_cw20_token(&mut app, &"tokeny".to_string())
        .unwrap();
    let lp_token = controller
        .create_pool(&mut app, &token_x, &token_y)
        .unwrap();
    assert_ne!(lp_token, token_x);
    assert_ne!(lp_token, token_y);

    // tokens minted through the controller start with no supply, so fund a
    // fresh pair of tokens under the same code for the liquidity round trip
    let funded_x = instantiate_funded_token(&mut app, controller.3, "FDX", "owner", 1_000_000);
    let funded_y = instantiate_funded_token(&mut app, controller.3, "FDY", "owner", 1_000_000);
    let pool_lp = controller
        .create_pool(&mut app, &funded_x.to_string(), &funded_y.to_string())
        .unwrap();

    // the pair pulls deposits through allowances
    let pair: astroport::asset::PairInfo = app
        .wrap()
        .query_wasm_smart(
            controller.2.clone(),
            &astroport::factory::QueryMsg::Pair {
                asset_infos: vec![
                    astroport::asset::AssetInfo::Token {
                        contract_addr: funded_x.clone(),
                    },
                    astroport::asset::AssetInfo::Token {
                        contract_addr: funded_y.clone(),
                    },
                ],
            },
        )
        .unwrap();
    let pair_addr = pair.contract_addr.to_string();
    allow(&mut app, "owner", &funded_x, &pair_addr, 100_000);
    allow(&mut app, "owner", &funded_y, &pair_addr, 100_000);

    controller
        .deposit_liquidity(
            &mut app,
            &pair_addr,
            &funded_x.to_string(),
            100_000,
            &funded_y.to_string(),
            100_000,
            &None,
        )
        .unwrap();

    let lp_balance = cw20_balance(&app, &pool_lp, "owner");
    assert!(lp_balance > 0);

    controller
        .withdraw_liquidity(&mut app, &pair_addr, &pool_lp, lp_balance, &None)
        .unwrap();
    assert_eq!(cw20_balance(&app, &pool_lp, "owner"), 0);
}

#[test]
fn terraswap_bootstrap_reports_missing_contract_code() {
    // terraswap's pair and factory contracts are not published as library
    // crates, so bootstrap surfaces the failed operation instead of a
    // partially initialised controller
    let mut app = mock_app();
    let owner = "owner".to_string();
    match TerraSwapController::init_contracts(&mut app, &owner) {
        Err(ProtocolError::OperationFailed { .. }) => {}
        Ok(_) => panic!("bootstrap unexpectedly succeeded"),
    }
}

#[test]
fn token_code_is_stored_for_both_platforms() {
    let mut app = mock_app();
    let astro = store_token_code(&mut app, Some(AvailablePlatforms::ASTROPORT)).unwrap();
    let tswap = store_token_code(&mut app, Some(AvailablePlatforms::TERRASWAP)).unwrap();
    let default = store_token_code(&mut app, None).unwrap();
    assert_ne!(astro, tswap);
    assert_ne!(tswap, default);
}

#[test]
fn withdraw_hook_payload_is_the_shared_wire_form() {
    assert_eq!(withdraw_hook_payload(), b"{\"withdraw_liquidity\":{}}".to_vec());
}

#[test]
fn advanced_block_numbers_follow_the_formula() {
    assert_eq!(advanced_block_numbers(10, 1_000, 5, 6), (15, 30_000_001_000));
    assert_eq!(
        advanced_block_numbers(u64::MAX - 1, 0, 5, 1),
        (u64::MAX, 5_000_000_000)
    );
    assert_eq!(
        advanced_block_numbers(0, u64::MAX - 1, 1, u64::MAX),
        (1, u64::MAX)
    );
}

#[test]
fn advancing_blocks_moves_the_chain_clock() {
    let app = mock_app();
    let before = app.block_info();
    let app = advance_n_blocks(app, 3, None);
    let after = app.block_info();
    assert_eq!(after.height, before.height + 3);
    assert_eq!(after.time, before.time.plus_seconds(15));
    let app = cw_test_harness::common_integration::advance_one_block(app);
    let last = app.block_info();
    assert_eq!(last.height, after.height + 1);
    assert_eq!(last.time, after.time.plus_seconds(5));
}

#[test]
fn scenario_starts_with_uninitialised_controllers() {
    let mut scenario = SimpleScenario::new();
    assert_eq!(scenario.owner, "owner");
    assert_eq!(scenario.alice, "alice");
    assert_eq!(scenario.bob, "bob");
    assert!(matches!(scenario.terraswap, ControllerSlot::Uninitialized));
    assert!(matches!(scenario.astroport, ControllerSlot::Uninitialized));

    // an explicit setup step deploys a protocol into its slot
    let controller = AstroportController::init_contracts(&mut scenario.app, &scenario.owner).unwrap();
    scenario.astroport = ControllerSlot::Ready(controller);
    match &scenario.astroport {
        ControllerSlot::Ready(c) => assert_eq!(c.addr(), "owner"),
        ControllerSlot::Uninitialized => panic!("controller not deployed"),
    }
}

#[test]
fn mint_reports_the_requested_mint() {
    let mut app = mock_app();
    let code_id = store_token_code(&mut app, Some(AvailablePlatforms::TERRASWAP)).unwrap();
    let msg = cw20_base::msg::InstantiateMsg {
        name: "Anchor Token".to_string(),
        symbol: "ANC".to_string(),
        decimals: 6,
        initial_balances: vec![],
        mint: Some(cw20::MinterResponse {
            minter: "owner".to_string(),
            cap: None,
        }),
        marketing: None,
    };
    let token = app
        .instantiate_contract(code_id, Addr::unchecked("owner"), &msg, &[], "ANC", None)
        .unwrap();

    mint_some_anc(
        &mut app,
        "owner".to_string(),
        token.to_string(),
        777,
        "alice".to_string(),
    )
    .unwrap();
    assert_eq!(cw20_balance(&app, token.as_str(), "alice"), 777);

    // a sender without the minter role is rejected and the rejection is
    // propagated unchanged
    match mint_some_anc(
        &mut app,
        "mallory".to_string(),
        token.to_string(),
        1,
        "mallory".to_string(),
    ) {
        Err(ProtocolError::OperationFailed { .. }) => {}
        Ok(_) => panic!("mint by a non-minter unexpectedly succeeded"),
    }
}

#[test]
fn base_fixture_bootstrap_reports_missing_pair_code() {
    // the basic fixture builds a terraswap pair, whose contract code is not
    // published as a library crate
    let mut app = mock_app();
    match cw_test_harness::help::init_contracts(&mut app) {
        Err(ProtocolError::OperationFailed { .. }) => {}
        Ok(_) => panic!("bootstrap unexpectedly succeeded"),
    }
}

#[test]
fn mint_acknowledgement_checks_every_attribute() {
    let events = |amount_text: &str| {
        vec![
            vec![("_contract_address".to_string(), "anc".to_string())],
            vec![
                ("_contract_address".to_string(), "anc".to_string()),
                ("action".to_string(), "mint".to_string()),
                ("to".to_string(), "alice".to_string()),
                ("amount".to_string(), amount_text.to_string()),
            ],
        ]
    };
    let to = "alice".to_string();
    assert!(cw_test_harness::help::mint_event_acknowledges(
        &events("777"),
        &to,
        777
    ));
    assert!(!cw_test_harness::help::mint_event_acknowledges(
        &events("778"),
        &to,
        777
    ));
    assert!(!cw_test_harness::help::mint_event_acknowledges(
        &events("777"),
        &"bob".to_string(),
        777
    ));
    assert!(!cw_test_harness::help::mint_event_acknowledges(
        &events("777")[..1].to_vec(),
        &to,
        777
    ));
}
