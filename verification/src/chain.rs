//! Trusted boundary to the simulated chain.
//!
//! The simulated chain (code storage, contract instantiation and execution,
//! the block clock) is an external collaborator.  Every call into it goes
//! through one of the wrappers below; verified code works on the plain values
//! they take and return.
//!
//! The execute and instantiate wrappers run the stored contracts' own code
//! natively, and the simulated chain does not catch unwinds: a contract that
//! panics — for instance on arithmetic overflow when a mint would push a
//! token's total supply past the largest representable amount — panics
//! through the wrapper's call.  Whether a call does so depends on chain
//! state, so no wrapper precondition over its plain arguments can exclude
//! it.

use cw_multi_test::Executor;
use vstd::prelude::*;

verus! {

#[verifier::external_type_specification]
#[verifier::external_body]
pub struct ExEmpty(cosmwasm_std::Empty);

#[verifier::external_type_specification]
#[verifier::external_body]
pub struct ExBankKeeper(cw_multi_test::BankKeeper);

#[verifier::external_type_specification]
#[verifier::external_body]
pub struct ExMockApi(cosmwasm_std::testing::MockApi);

#[verifier::external_type_specification]
#[verifier::external_body]
pub struct ExMockStorage(cosmwasm_std::testing::MockStorage);

#[verifier::external_type_specification]
#[verifier::external_body]
#[verifier::reject_recursive_types(ExecT)]
#[verifier::reject_recursive_types(QueryT)]
#[verifier::reject_recursive_types(ReturnT)]
pub struct ExFailingModule<ExecT, QueryT, ReturnT>(
    cw_multi_test::FailingModule<ExecT, QueryT, ReturnT>,
);

#[verifier::external_type_specification]
#[verifier::external_body]
#[verifier::reject_recursive_types(ExecC)]
#[verifier::reject_recursive_types(QueryC)]
pub struct ExWasmKeeper<ExecC, QueryC>(cw_multi_test::WasmKeeper<ExecC, QueryC>);

#[verifier::external_type_specification]
#[verifier::external_body]
pub struct ExStakeKeeper(cw_multi_test::StakeKeeper);

#[verifier::external_type_specification]
#[verifier::external_body]
pub struct ExDistributionKeeper(cw_multi_test::DistributionKeeper);

#[verifier::external_type_specification]
#[verifier::external_body]
pub struct ExIbcMsg(cosmwasm_std::IbcMsg);

#[verifier::external_type_specification]
#[verifier::external_body]
pub struct ExIbcQuery(cosmwasm_std::IbcQuery);

#[verifier::external_type_specification]
#[verifier::external_body]
pub struct ExGovMsg(cosmwasm_std::GovMsg);

#[verifier::external_type_specification]
#[verifier::external_body]
pub struct ExStargateFailing(cw_multi_test::StargateFailing);

#[verifier::external_type_specification]
#[verifier::external_body]
#[verifier::reject_recursive_types(Bank)]
#[verifier::reject_recursive_types(Api)]
#[verifier::reject_recursive_types(Storage)]
#[verifier::reject_recursive_types(Custom)]
#[verifier::reject_recursive_types(Wasm)]
#[verifier::reject_recursive_types(Staking)]
#[verifier::reject_recursive_types(Distr)]
#[verifier::reject_recursive_types(Ibc)]
#[verifier::reject_recursive_types(Gov)]
#[verifier::reject_recursive_types(Stargate)]
pub struct ExApp<Bank, Api, Storage, Custom, Wasm, Staking, Distr, Ibc, Gov, Stargate>(
    cw_multi_test::App<Bank, Api, Storage, Custom, Wasm, Staking, Distr, Ibc, Gov, Stargate>,
);

/// Build a fresh simulated chain with default modules and an empty state.
/// Relies on cw_multi_test::App::default.
#[verifier::external_body]
pub(crate) fn mock_app() -> cw_multi_test::App {
    cw_multi_test::App::default()
}

/// Relies on cw_multi_test::App::store_code to register the astroport token
/// contract; it returns the identifier assigned to the stored code.
#[verifier::external_body]
pub(crate) fn store_astroport_token_contract(app: &mut cw_multi_test::App) -> u64 {
    app.store_code(Box::new(cw_multi_test::ContractWrapper::new_with_empty(
        astroport_token::contract::execute,
        astroport_token::contract::instantiate,
        astroport_token::contract::query,
    )))
}

/// Relies on cw_multi_test::App::store_code to register the plain cw20-base
/// token contract; it returns the identifier assigned to the stored code.
#[verifier::external_body]
pub(crate) fn store_cw20_base_contract(app: &mut cw_multi_test::App) -> u64 {
    app.store_code(Box::new(cw_multi_test::ContractWrapper::new_with_empty(
        cw20_base::contract::execute,
        cw20_base::contract::instantiate,
        cw20_base::contract::query,
    )))
}

/// Relies on cw_multi_test::App::store_code to register the astroport pair
/// contract; it returns the identifier assigned to the stored code.
#[verifier::external_body]
pub(crate) fn store_astroport_pair_contract(app: &mut cw_multi_test::App) -> u64 {
    app.store_code(Box::new(cw_multi_test::ContractWrapper::new_with_empty(
        astroport_pair::contract::execute,
        astroport_pair::contract::instantiate,
        astroport_pair::contract::query,
    ).with_reply_empty(astroport_pair::contract::reply)))
}

/// Relies on cw_multi_test::App::store_code to register the astroport factory
/// contract; it returns the identifier assigned to the stored code.
#[verifier::external_body]
pub(crate) fn store_astroport_factory_contract(app: &mut cw_multi_test::App) -> u64 {
    app.store_code(Box::new(cw_multi_test::ContractWrapper::new(
        astroport_factory::contract::execute,
        astroport_factory::contract::instantiate,
        astroport_factory::contract::query,
    ).with_reply(astroport_factory::contract::reply)))
}

/// Relies on cw_multi_test::Executor::instantiate_contract with
/// astroport::factory::InstantiateMsg, registering one xyk pair
/// configuration; it returns the new contract's address on success.
#[verifier::external_body]
pub(crate) fn instantiate_astroport_factory(
    app: &mut cw_multi_test::App,
    factory_code_id: u64,
    pair_code_id: u64,
    total_fee_bps: u16,
    maker_fee_bps: u16,
    token_code_id: u64,
    whitelist_code_id: u64,
    coin_registry: &str,
    owner: &str,
) -> Result<String, String> {
    let pc = astroport::factory::PairConfig {
        code_id: pair_code_id, pair_type: astroport::factory::PairType::Xyk {},
        total_fee_bps, maker_fee_bps, is_disabled: false, is_generator_disabled: false,
    };
    let msg = astroport::factory::InstantiateMsg {
        pair_configs: vec![pc], token_code_id, fee_address: None, generator_address: None,
        owner: owner.to_string(), whitelist_code_id,
        coin_registry_address: coin_registry.to_string(),
    };
    app.instantiate_contract(factory_code_id, cosmwasm_std::Addr::unchecked(owner), &msg, &[], "Factory", None)
        .map(|a| a.to_string()).map_err(|e| e.to_string())
}

/// Relies on cw_multi_test::Executor::instantiate_contract with
/// terraswap::factory::InstantiateMsg; it returns the new contract's address
/// on success.
#[verifier::external_body]
pub(crate) fn instantiate_terraswap_factory(
    app: &mut cw_multi_test::App,
    factory_code_id: u64,
    pair_code_id: u64,
    token_code_id: u64,
    owner: &str,
) -> Result<String, String> {
    let msg = terraswap::factory::InstantiateMsg { pair_code_id, token_code_id };
    app.instantiate_contract(factory_code_id, cosmwasm_std::Addr::unchecked(owner), &msg, &[], "Factory", None)
        .map(|a| a.to_string()).map_err(|e| e.to_string())
}

/// Relies on cw_multi_test::Executor::instantiate_contract with
/// astroport::token::InstantiateMsg, an empty initial balance list and no
/// minter or marketing; it returns the new token's address on success.
#[verifier::external_body]
pub(crate) fn instantiate_astroport_token(
    app: &mut cw_multi_test::App,
    token_code_id: u64,
    owner: &str,
    name: &str,
    decimals: u8,
) -> Result<String, String> {
    let msg = astroport::token::InstantiateMsg {
        name: name.to_string(), symbol: name.to_string(), decimals,
        initial_balances: vec![], mint: None, marketing: None,
    };
    app.instantiate_contract(token_code_id, cosmwasm_std::Addr::unchecked(owner), &msg, &[], name.to_string(), None)
        .map(|a| a.to_string()).map_err(|e| e.to_string())
}

/// Relies on cw_multi_test::Executor::instantiate_contract with
/// cw20_base::msg::InstantiateMsg and an optional uncapped minter; it returns
/// the new token's address on success.
#[verifier::external_body]
pub(crate) fn instantiate_cw20_base_token(
    app: &mut cw_multi_test::App,
    token_code_id: u64,
    owner: &str,
    name: &str,
    symbol: &str,
    decimals: u8,
    minter: Option<String>,
) -> Result<String, String> {
    let msg = cw20_base::msg::InstantiateMsg {
        name: name.to_string(), symbol: symbol.to_string(), decimals,
        initial_balances: vec![],
        mint: minter.map(|m| cw20::MinterResponse { minter: m, cap: None }),
        marketing: None,
    };
    app.instantiate_contract(token_code_id, cosmwasm_std::Addr::unchecked(owner), &msg, &[], symbol.to_string(), None)
        .map(|a| a.to_string()).map_err(|e| e.to_string())
}

/// Relies on cw_multi_test::Executor::instantiate_contract with
/// terraswap::pair::InstantiateMsg over one native and one token asset; it
/// returns the new pair's address on success.
#[verifier::external_body]
pub(crate) fn instantiate_terraswap_pair(
    app: &mut cw_multi_test::App,
    pair_code_id: u64,
    token_code_id: u64,
    owner: &str,
    denom: &str,
    token_addr: &str,
    decimals_native: u8,
    decimals_token: u8,
) -> Result<String, String> {
    let msg = terraswap::pair::InstantiateMsg {
        asset_infos: [
            terraswap::asset::AssetInfo::NativeToken { denom: denom.to_string() },
            terraswap::asset::AssetInfo::Token { contract_addr: token_addr.to_string() },
        ],
        token_code_id,
        asset_decimals: [decimals_native, decimals_token],
    };
    app.instantiate_contract(pair_code_id, cosmwasm_std::Addr::unchecked(owner), &msg, &[], "PAIR", None)
        .map(|a| a.to_string()).map_err(|e| e.to_string())
}

/// Relies on cw_multi_test::Executor::execute_contract with
/// astroport::factory::ExecuteMsg::CreatePair for an xyk pair of two cw20
/// tokens.
#[verifier::external_body]
pub(crate) fn execute_astroport_create_pair(
    app: &mut cw_multi_test::App,
    sender: &str,
    factory: &str,
    token1: &str,
    token2: &str,
) -> Result<(), String> {
    let msg = astroport::factory::ExecuteMsg::CreatePair {
        pair_type: astroport::factory::PairType::Xyk {},
        asset_infos: vec![
            astroport::asset::AssetInfo::Token { contract_addr: cosmwasm_std::Addr::unchecked(token1) },
            astroport::asset::AssetInfo::Token { contract_addr: cosmwasm_std::Addr::unchecked(token2) },
        ],
        init_params: None,
    };
    app.execute_contract(cosmwasm_std::Addr::unchecked(sender), cosmwasm_std::Addr::unchecked(factory), &msg, &[])
        .map(|_| ()).map_err(|e| e.to_string())
}

/// Relies on cw_multi_test::Executor::execute_contract with
/// terraswap::factory::ExecuteMsg::CreatePair over two cw20 token assets.
#[verifier::external_body]
pub(crate) fn execute_terraswap_create_pair(
    app: &mut cw_multi_test::App,
    sender: &str,
    factory: &str,
    token1: &str,
    token2: &str,
) -> Result<(), String> {
    let msg = terraswap::factory::ExecuteMsg::CreatePair {
        assets: [
            terraswap::asset::Asset {
                info: terraswap::asset::AssetInfo::Token { contract_addr: token1.to_string() },
                amount: cosmwasm_std::Uint128::zero(),
            },
            terraswap::asset::Asset {
                info: terraswap::asset::AssetInfo::Token { contract_addr: token2.to_string() },
                amount: cosmwasm_std::Uint128::zero(),
            },
        ],
    };
    app.execute_contract(cosmwasm_std::Addr::unchecked(sender), cosmwasm_std::Addr::unchecked(factory), &msg, &[])
        .map(|_| ()).map_err(|e| e.to_string())
}

/// Relies on cosmwasm_std::QuerierWrapper::query_wasm_smart with
/// astroport::factory::QueryMsg::Pair; it returns the pair's liquidity token
/// address on success.
#[verifier::external_body]
pub(crate) fn query_astroport_pair_lp(
    app: &cw_multi_test::App,
    factory: &str,
    token1: &str,
    token2: &str,
) -> Result<String, String> {
    let msg = astroport::factory::QueryMsg::Pair {
        asset_infos: vec![
            astroport::asset::AssetInfo::Token { contract_addr: cosmwasm_std::Addr::unchecked(token1) },
            astroport::asset::AssetInfo::Token { contract_addr: cosmwasm_std::Addr::unchecked(token2) },
        ],
    };
    let r: Result<astroport::asset::PairInfo, _> =
        app.wrap().query_wasm_smart(cosmwasm_std::Addr::unchecked(factory), &msg);
    r.map(|p| p.liquidity_token.to_string()).map_err(|e| e.to_string())
}

/// Relies on cosmwasm_std::QuerierWrapper::query_wasm_smart with
/// terraswap::factory::QueryMsg::Pair; it returns the pair's liquidity token
/// address on success.
#[verifier::external_body]
pub(crate) fn query_terraswap_pair_lp(
    app: &cw_multi_test::App,
    factory: &str,
    token1: &str,
    token2: &str,
) -> Result<String, String> {
    let msg = terraswap::factory::QueryMsg::Pair {
        asset_infos: [
            terraswap::asset::AssetInfo::Token { contract_addr: token1.to_string() },
            terraswap::asset::AssetInfo::Token { contract_addr: token2.to_string() },
        ],
    };
    let r: Result<terraswap::asset::PairInfo, _> =
        app.wrap().query_wasm_smart(cosmwasm_std::Addr::unchecked(factory), &msg);
    r.map(|p| p.liquidity_token).map_err(|e| e.to_string())
}

/// Relies on cosmwasm_std::QuerierWrapper::query_wasm_smart with
/// terraswap::pair::QueryMsg::Pair; it returns the addresses the pair reports
/// for itself and for its liquidity token.
#[verifier::external_body]
pub(crate) fn query_terraswap_pair_info(
    app: &cw_multi_test::App,
    pair: &str,
) -> Result<(String, String), String> {
    let r: Result<terraswap::asset::PairInfo, _> =
        app.wrap().query_wasm_smart(cosmwasm_std::Addr::unchecked(pair), &terraswap::pair::QueryMsg::Pair {});
    r.map(|p| (p.contract_addr, p.liquidity_token)).map_err(|e| e.to_string())
}

/// Relies on cw_multi_test::Executor::execute_contract with
/// astroport::pair::ExecuteMsg::ProvideLiquidity over two cw20 token assets.
#[verifier::external_body]
pub(crate) fn execute_astroport_provide_liquidity(
    app: &mut cw_multi_test::App,
    sender: &str,
    pair: &str,
    token_x: &str,
    amount_x: u128,
    token_y: &str,
    amount_y: u128,
) -> Result<(), String> {
    let msg = astroport::pair::ExecuteMsg::ProvideLiquidity {
        assets: vec![
            astroport::asset::Asset {
                info: astroport::asset::AssetInfo::Token { contract_addr: cosmwasm_std::Addr::unchecked(token_x) },
                amount: cosmwasm_std::Uint128::new(amount_x),
            },
            astroport::asset::Asset {
                info: astroport::asset::AssetInfo::Token { contract_addr: cosmwasm_std::Addr::unchecked(token_y) },
                amount: cosmwasm_std::Uint128::new(amount_y),
            },
        ],
        slippage_tolerance: None, auto_stake: None, receiver: None,
    };
    app.execute_contract(cosmwasm_std::Addr::unchecked(sender), cosmwasm_std::Addr::unchecked(pair), &msg, &[])
        .map(|_| ()).map_err(|e| e.to_string())
}

/// Relies on cw_multi_test::Executor::execute_contract with
/// terraswap::pair::ExecuteMsg::ProvideLiquidity over two cw20 token assets.
#[verifier::external_body]
pub(crate) fn execute_terraswap_provide_liquidity(
    app: &mut cw_multi_test::App,
    sender: &str,
    pair: &str,
    token_x: &str,
    amount_x: u128,
    token_y: &str,
    amount_y: u128,
) -> Result<(), String> {
    let msg = terraswap::pair::ExecuteMsg::ProvideLiquidity {
        assets: [
            terraswap::asset::Asset {
                info: terraswap::asset::AssetInfo::Token { contract_addr: token_x.to_string() },
                amount: cosmwasm_std::Uint128::new(amount_x),
            },
            terraswap::asset::Asset {
                info: terraswap::asset::AssetInfo::Token { contract_addr: token_y.to_string() },
                amount: cosmwasm_std::Uint128::new(amount_y),
            },
        ],
        slippage_tolerance: None, receiver: None, deadline: None,
    };
    app.execute_contract(cosmwasm_std::Addr::unchecked(sender), cosmwasm_std::Addr::unchecked(pair), &msg, &[])
        .map(|_| ()).map_err(|e| e.to_string())
}

/// Relies on cw_multi_test::Executor::execute_contract with
/// cw20::Cw20ExecuteMsg::Send, forwarding the given hook payload bytes to the
/// receiving contract.
#[verifier::external_body]
pub(crate) fn execute_cw20_send(
    app: &mut cw_multi_test::App,
    sender: &str,
    token: &str,
    recipient_contract: &str,
    amount: u128,
    payload: Vec<u8>,
) -> Result<(), String> {
    let msg = cw20::Cw20ExecuteMsg::Send {
        contract: recipient_contract.to_string(),
        amount: cosmwasm_std::Uint128::new(amount),
        msg: cosmwasm_std::Binary::from(payload),
    };
    app.execute_contract(cosmwasm_std::Addr::unchecked(sender), cosmwasm_std::Addr::unchecked(token), &msg, &[])
        .map(|_| ()).map_err(|e| e.to_string())
}

/// Relies on cw_multi_test::Executor::execute_contract with
/// cw20::Cw20ExecuteMsg::Mint; on success it returns, per emitted event, that
/// event's attributes as key and value pairs.
#[verifier::external_body]
pub(crate) fn execute_cw20_mint(
    app: &mut cw_multi_test::App,
    sender: &str,
    token: &str,
    recipient: &str,
    amount: u128,
) -> Result<Vec<Vec<(String, String)>>, String> {
    let msg = cw20::Cw20ExecuteMsg::Mint {
        recipient: recipient.to_string(),
        amount: cosmwasm_std::Uint128::new(amount),
    };
    match app.execute_contract(cosmwasm_std::Addr::unchecked(sender), cosmwasm_std::Addr::unchecked(token), &msg, &[]) {
        Ok(r) => Ok(r.events.iter().map(|e| e.attributes.iter().map(|a| (a.key.clone(), a.value.clone())).collect()).collect()),
        Err(e) => Err(e.to_string()),
    }
}

/// Relies on cw_multi_test::App::block_info; it returns the current block's
/// height, its timestamp in nanoseconds, and the chain identifier.
#[verifier::external_body]
pub(crate) fn get_block(app: &cw_multi_test::App) -> (u64, u64, String) {
    let b = app.block_info();
    (b.height, b.time.nanos(), b.chain_id)
}

/// Relies on cw_multi_test::App::set_block, installing a block with the given
/// height, timestamp in nanoseconds, and chain identifier.
#[verifier::external_body]
pub(crate) fn set_block(app: &mut cw_multi_test::App, height: u64, time_nanos: u64, chain_id: String) {
    app.set_block(cosmwasm_std::BlockInfo {
        height,
        time: cosmwasm_std::Timestamp::from_nanos(time_nanos),
        chain_id,
    });
}

} // verus!
