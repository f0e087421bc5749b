//! The mock query dispatcher.
//!
//! Given an already-decoded query envelope, the dispatcher classifies it,
//! resolves contract-address-specific and message-shape-specific mock roles,
//! consults the registries, and either synthesises a response, reports a
//! query-level error, or asks the caller to forward the request to the base
//! chain-state simulator.  It is a pure function of its registries and the
//! envelope; it never mutates the registries.

use crate::encoding::{bytes_eq, spec_length_prefixed, to_length_prefixed};
use crate::registry::{
    balances_to_map, pairs_to_map, AssetInfo, AstroportFactoryQuerier, PairRecord, PoolType,
    TerraswapPairQuerier, TokenQuerier,
};
use vstd::prelude::*;
use vstd::string::*;
use vstd::utf8::is_ascii_chars;
use cosmwasm_std::Api;

verus! {

/// A query envelope, as the shared domain codec decodes it off the wire:
/// a structured call, a raw storage-key lookup, or some other native request
/// that is not this dispatcher's responsibility.
#[derive(Debug)]
pub enum QueryEnvelope {
    Smart { contract_addr: String, msg: Vec<u8> },
    Raw { contract_addr: String, key: Vec<u8> },
    Other,
}

/// A synthesised response, still as structured values; the caller encodes it
/// for the wire.
#[derive(Debug)]
pub enum MockResponse {
    /// Canned acknowledgement for the lending-market role's epoch-state call.
    EpochState { text: String },
    /// A token balance, either canned or read from the balance registry.
    Balance { amount: u128 },
    /// Canned pool state for the LP-token role.
    Pool {
        asset_a_denom: String,
        asset_a_amount: u128,
        asset_b_denom: String,
        asset_b_amount: u128,
        total_share: u128,
    },
    /// Canned pair metadata for the LP-token role.
    PairMetadata { record: PairRecord },
    /// The fixed value the generic key-value registry role always returns.
    RegistryValue { text: String },
    /// A pair-info record for a raw lookup, with addresses in canonical form.
    RawPairInfo {
        contract_addr: Vec<u8>,
        liquidity_token: Vec<u8>,
        asset_infos: (AssetInfo, AssetInfo),
        asset_decimals: (u8, u8),
        pool_type: PoolType,
    },
    /// Not a mocked request: hand it to the base chain-state simulator.
    Forwarded,
}

/// A query-level failure the dispatcher reports back through the query path.
#[derive(Debug)]
pub enum QueryError {
    /// A structurally valid request matched no configured mock case; a fatal
    /// test-authoring error.
    UnhandledMockCase,
    /// No balance table at all is registered for the contract.
    NoBalanceInfo { contract_addr: String },
    /// The contract is absent from the pair-info registry.
    PairInfoNotFound { contract_addr: String },
}

/// The mock role a target contract address resolves to on the structured-call
/// path.
#[derive(Clone, Copy, Debug, PartialEq, Eq, Structural)]
pub enum MockRole {
    LendingMarket,
    LpToken,
    Cw20Generic,
}

/// Which mock role a contract address plays.
pub open spec fn spec_role_of(addr: Seq<char>) -> MockRole {
    if addr == "anchor_mm"@ {
        MockRole::LendingMarket
    } else if addr == "astro_based_lp_token"@ {
        MockRole::LpToken
    } else {
        MockRole::Cw20Generic
    }
}

/// Resolve the mock role of a target contract address.
pub fn role_of(addr: &String) -> (r: MockRole)
    ensures
        r == spec_role_of(addr@),
{
    if addr.eq(&String::from_str("anchor_mm")) {
        MockRole::LendingMarket
    } else if addr.eq(&String::from_str("astro_based_lp_token")) {
        MockRole::LpToken
    } else {
        MockRole::Cw20Generic
    }
}

/// What a cw20 balance query decodes to: the holder address, if the bytes
/// parse as exactly that query.  Named, not spelled out: the byte layout
/// belongs to the shared domain codec.
pub uninterp spec fn cw20_balance_query_of(b: Seq<u8>) -> Option<Seq<char>>;

/// Relies on cosmwasm_std::from_json with cw20::Cw20QueryMsg: deserialization
/// is a function of the bytes alone, and yields a holder address exactly when
/// the bytes parse as a balance query.
#[verifier::external_body]
fn decode_cw20_balance(msg: &[u8]) -> (r: Option<String>)
    ensures
        (r matches Some(a) ==> cw20_balance_query_of(msg@) == Some(a@)),
        (r is None ==> cw20_balance_query_of(msg@) is None),
{
    match cosmwasm_std::from_json::<cw20::Cw20QueryMsg>(msg) {
        Ok(cw20::Cw20QueryMsg::Balance { address }) => Some(address),
        Ok(_) => None,
        Err(_) => None,
    }
}

/// Whether the mock chain API can canonicalize this human-readable address:
/// its byte encoding is no shorter than 3 and no longer than 90 bytes.
pub open spec fn valid_human_addr(s: Seq<char>) -> bool {
    3 <= vstd::utf8::encode_utf8(s).len() <= 90
}

/// Whether an asset descriptor survives conversion to its raw on-chain form:
/// a token's contract address must admit a canonical form, while a native
/// coin's denomination is carried as it stands.
pub open spec fn canonicalizable_asset(a: crate::registry::AssetInfoView) -> bool {
    match a {
        crate::registry::AssetInfoView::Token { contract_addr } => valid_human_addr(
            contract_addr,
        ),
        crate::registry::AssetInfoView::NativeToken { .. } => true,
    }
}

/// Check that the mock chain API can canonicalize this address.
pub fn human_addr_valid(s: &String) -> (r: bool)
    ensures
        r == valid_human_addr(s@),
{
    let len: usize = s.as_str().as_bytes().len();
    3 <= len && len <= 90
}

/// Check that an asset descriptor survives conversion to its raw form.
pub fn asset_canonicalizable(a: &AssetInfo) -> (r: bool)
    ensures
        r == canonicalizable_asset(a@),
{
    match a {
        AssetInfo::Token { contract_addr } => human_addr_valid(contract_addr),
        AssetInfo::NativeToken { .. } => true,
    }
}

/// The canonical on-chain form of a human-readable address.  Named, not
/// spelled out: the exact shuffling belongs to the mock chain API.
pub uninterp spec fn canonical_of(s: Seq<char>) -> Seq<u8>;

/// Relies on cosmwasm_std::testing::MockApi::addr_canonicalize: the result is
/// a function of the input alone, and the call succeeds exactly when the
/// input is between 3 and 90 bytes long.
#[verifier::external_body]
fn canonicalize_addr(s: &str) -> (r: Option<Vec<u8>>)
    ensures
        r is Some <==> valid_human_addr(s@),
        (r matches Some(v) ==> v@ == canonical_of(s@)),
{
    cosmwasm_std::testing::MockApi::default().addr_canonicalize(s).ok().map(|c| c.to_vec())
}

/// The length-prefixed storage key that discriminates pair-info raw lookups.
pub open spec fn pair_info_key() -> Seq<u8> {
    spec_length_prefixed("pair_info".spec_bytes())
}

/// Build the pair-info storage key: the byte encoding of `pair_info` behind
/// its two-byte big-endian length.
pub fn pair_info_storage_key() -> (r: Vec<u8>)
    ensures
        r@ == pair_info_key(),
{
    let lit = "pair_info";
    proof {
        reveal_strlit("pair_info");
        assert(is_ascii_chars(lit@));
        vstd::utf8::is_ascii_chars_encode_utf8(lit@);
    }
    to_length_prefixed(lit.as_bytes())
}

/// What the dispatcher must return for a structured-call request.
pub open spec fn smart_dispatch_spec(
    balances: Map<Seq<char>, Map<Seq<char>, u128>>,
    contract: Seq<char>,
    msg: Seq<u8>,
    r: Result<MockResponse, QueryError>,
) -> bool {
    match spec_role_of(contract) {
        MockRole::LendingMarket => {
            if msg == "{\"epoch_state\":{}}".spec_bytes() {
                (r matches Ok(MockResponse::EpochState { text }) && text@
                    == "Mocked the epoch state call"@)
            } else {
                r == Ok::<MockResponse, QueryError>(MockResponse::Balance { amount: 0u128 })
            }
        },
        MockRole::LpToken => {
            if msg == "{\"pool\":{}}".spec_bytes() {
                (r matches Ok(
                    MockResponse::Pool {
                        asset_a_denom,
                        asset_a_amount,
                        asset_b_denom,
                        asset_b_amount,
                        total_share,
                    },
                ) && asset_a_denom@ == "whale"@ && asset_a_amount == 10000 && asset_b_denom@
                    == "uusd"@ && asset_b_amount == 10000 && total_share == 1000)
            } else {
                (r matches Ok(MockResponse::PairMetadata { record }) && record@
                    == canned_lp_pair_metadata())
            }
        },
        MockRole::Cw20Generic => {
            match cw20_balance_query_of(msg) {
                Some(holder) => {
                    if contract == "exceptional_token_without_normal_balance"@ {
                        r == Ok::<MockResponse, QueryError>(MockResponse::Balance { amount: 0u128 })
                    } else if !balances.contains_key(contract) {
                        (r matches Err(QueryError::NoBalanceInfo { contract_addr })
                            && contract_addr@ == contract)
                    } else if balances[contract].contains_key(holder) {
                        r == Ok::<MockResponse, QueryError>(MockResponse::Balance { amount: balances[contract][holder] })
                    } else {
                        r == Ok::<MockResponse, QueryError>(MockResponse::Balance { amount: 0u128 })
                    }
                },
                None => r == Err::<MockResponse, QueryError>(QueryError::UnhandledMockCase),
            }
        },
    }
}

/// The canned pair metadata the LP-token role reports.
pub open spec fn canned_lp_pair_metadata() -> crate::registry::PairRecordView {
    crate::registry::PairRecordView {
        asset_infos: (
            crate::registry::AssetInfoView::Token { contract_addr: "bluna"@ },
            crate::registry::AssetInfoView::NativeToken { denom: "uusd"@ },
        ),
        contract_addr: "PAIR0000"@,
        liquidity_token: "liqtoken"@,
        pool_type: PoolType::Xyk,
    }
}

/// What the dispatcher must return for a raw-lookup request.
pub open spec fn raw_dispatch_spec(
    pairs: Map<Seq<char>, crate::registry::PairRecordView>,
    contract: Seq<char>,
    key: Seq<u8>,
    r: Result<MockResponse, QueryError>,
) -> bool {
    if contract == "registry"@ {
        (r matches Ok(MockResponse::RegistryValue { text }) && text@ == "mocked_registry_value"@)
    } else if key == pair_info_key() {
        if pairs.contains_key(contract) {
            raw_pair_info_spec(pairs[contract], r)
        } else {
            (r matches Err(QueryError::PairInfoNotFound { contract_addr }) && contract_addr@
                == contract)
        }
    } else {
        r == Err::<MockResponse, QueryError>(QueryError::UnhandledMockCase)
    }
}

/// What a raw pair-info lookup returns for a registered record: the record
/// with its addresses canonicalized, or the unhandled-case error where a
/// registered address admits no canonical form — the pair's own, its
/// liquidity token's, or a token-typed asset's.
pub open spec fn raw_pair_info_spec(
    p: crate::registry::PairRecordView,
    r: Result<MockResponse, QueryError>,
) -> bool {
    if valid_human_addr(p.contract_addr) && valid_human_addr(p.liquidity_token)
        && canonicalizable_asset(p.asset_infos.0) && canonicalizable_asset(p.asset_infos.1) {
        (r matches Ok(
            MockResponse::RawPairInfo {
                contract_addr,
                liquidity_token,
                asset_infos,
                asset_decimals,
                pool_type,
            },
        ) && contract_addr@ == canonical_of(p.contract_addr) && liquidity_token@ == canonical_of(
            p.liquidity_token,
        ) && asset_infos.0@ == p.asset_infos.0 && asset_infos.1@ == p.asset_infos.1
            && asset_decimals == (0u8, 0u8) && pool_type == p.pool_type)
    } else {
        r == Err::<MockResponse, QueryError>(QueryError::UnhandledMockCase)
    }
}

/// What the dispatcher must return for any envelope.
pub open spec fn dispatch_spec(
    balances: Map<Seq<char>, Map<Seq<char>, u128>>,
    pairs: Map<Seq<char>, crate::registry::PairRecordView>,
    env: QueryEnvelope,
    r: Result<MockResponse, QueryError>,
) -> bool {
    match env {
        QueryEnvelope::Smart { contract_addr, msg } => smart_dispatch_spec(
            balances,
            contract_addr@,
            msg@,
            r,
        ),
        QueryEnvelope::Raw { contract_addr, key } => raw_dispatch_spec(
            pairs,
            contract_addr@,
            key@,
            r,
        ),
        QueryEnvelope::Other => r == Ok::<MockResponse, QueryError>(MockResponse::Forwarded),
    }
}

/// The mock query dispatcher: the registries a scenario configured, behind
/// one query entry point.
pub struct WasmMockQuerier {
    token_querier: TokenQuerier,
    terraswap_pair_querier: TerraswapPairQuerier,
    astroport_factory_querier: AstroportFactoryQuerier,
}

impl WasmMockQuerier {
    /// The balance registry's contents.
    pub closed spec fn balances(&self) -> Map<Seq<char>, Map<Seq<char>, u128>> {
        self.token_querier@
    }

    /// The pair-info registry's contents.
    pub closed spec fn terraswap_pairs(&self) -> Map<Seq<char>, crate::registry::PairRecordView> {
        self.terraswap_pair_querier@
    }

    /// The factory listing registry's contents.
    pub closed spec fn astroport_pairs(&self) -> Map<Seq<char>, crate::registry::PairRecordView> {
        self.astroport_factory_querier@
    }

    /// A dispatcher with all registries empty.
    pub fn new() -> (r: Self)
        ensures
            r.balances() == Map::<Seq<char>, Map<Seq<char>, u128>>::empty(),
            r.terraswap_pairs() == Map::<Seq<char>, crate::registry::PairRecordView>::empty(),
            r.astroport_pairs() == Map::<Seq<char>, crate::registry::PairRecordView>::empty(),
    {
        WasmMockQuerier {
            token_querier: TokenQuerier::new(Vec::new()),
            terraswap_pair_querier: TerraswapPairQuerier::new(Vec::new()),
            astroport_factory_querier: AstroportFactoryQuerier::new(Vec::new()),
        }
    }

    /// Replace the balance registry wholesale.
    pub fn with_token_balances(&mut self, balances: Vec<(String, Vec<(String, u128)>)>)
        ensures
            final(self).balances() == balances_to_map(balances@),
            final(self).terraswap_pairs() == old(self).terraswap_pairs(),
            final(self).astroport_pairs() == old(self).astroport_pairs(),
    {
        self.token_querier = TokenQuerier::new(balances);
    }

    /// Replace the pair-info registry wholesale.
    pub fn with_terraswap_pairs(&mut self, pairs: Vec<(String, PairRecord)>)
        ensures
            final(self).terraswap_pairs() == pairs_to_map(pairs@),
            final(self).balances() == old(self).balances(),
            final(self).astroport_pairs() == old(self).astroport_pairs(),
    {
        self.terraswap_pair_querier = TerraswapPairQuerier::new(pairs);
    }

    /// Replace the factory listing registry wholesale.
    pub fn with_astroport_pairs(&mut self, pairs: Vec<(String, PairRecord)>)
        ensures
            final(self).astroport_pairs() == pairs_to_map(pairs@),
            final(self).balances() == old(self).balances(),
            final(self).terraswap_pairs() == old(self).terraswap_pairs(),
    {
        self.astroport_factory_querier = AstroportFactoryQuerier::new(pairs);
    }

    /// Answer one query envelope from the configured registries, or report
    /// why it cannot be answered, or hand it back for forwarding.
    pub fn handle_query(&self, request: &QueryEnvelope) -> (r: Result<MockResponse, QueryError>)
        ensures
            dispatch_spec(self.balances(), self.terraswap_pairs(), *request, r),
    {
        match request {
            QueryEnvelope::Smart { contract_addr, msg } => self.handle_smart(contract_addr, msg),
            QueryEnvelope::Raw { contract_addr, key } => self.handle_raw(contract_addr, key),
            QueryEnvelope::Other => Ok(MockResponse::Forwarded),
        }
    }

    /// Answer a structured-call request.
    fn handle_smart(&self, contract_addr: &String, msg: &Vec<u8>) -> (r: Result<
        MockResponse,
        QueryError,
    >)
        ensures
            smart_dispatch_spec(self.balances(), contract_addr@, msg@, r),
    {
        match role_of(contract_addr) {
            MockRole::LendingMarket => {
                if bytes_eq(msg.as_slice(), "{\"epoch_state\":{}}".as_bytes()) {
                    Ok(
                        MockResponse::EpochState {
                            text: String::from_str("Mocked the epoch state call"),
                        },
                    )
                } else {
                    Ok(MockResponse::Balance { amount: 0 })
                }
            },
            MockRole::LpToken => {
                if bytes_eq(msg.as_slice(), "{\"pool\":{}}".as_bytes()) {
                    Ok(
                        MockResponse::Pool {
                            asset_a_denom: String::from_str("whale"),
                            asset_a_amount: 10000,
                            asset_b_denom: String::from_str("uusd"),
                            asset_b_amount: 10000,
                            total_share: 1000,
                        },
                    )
                } else {
                    Ok(
                        MockResponse::PairMetadata {
                            record: PairRecord {
                                asset_infos: (
                                    AssetInfo::Token { contract_addr: String::from_str("bluna") },
                                    AssetInfo::NativeToken { denom: String::from_str("uusd") },
                                ),
                                contract_addr: String::from_str("PAIR0000"),
                                liquidity_token: String::from_str("liqtoken"),
                                pool_type: PoolType::Xyk,
                            },
                        },
                    )
                }
            },
            MockRole::Cw20Generic => {
                match decode_cw20_balance(msg.as_slice()) {
                    Some(holder) => {
                        if contract_addr.eq(
                            &String::from_str("exceptional_token_without_normal_balance"),
                        ) {
                            Ok(MockResponse::Balance { amount: 0 })
                        } else if !self.token_querier.has_contract(contract_addr) {
                            Err(QueryError::NoBalanceInfo { contract_addr: contract_addr.clone() })
                        } else {
                            match self.token_querier.balance(contract_addr, &holder) {
                                Some(amount) => Ok(MockResponse::Balance { amount }),
                                None => Ok(MockResponse::Balance { amount: 0 }),
                            }
                        }
                    },
                    None => Err(QueryError::UnhandledMockCase),
                }
            },
        }
    }

    /// Answer a raw-lookup request.
    fn handle_raw(&self, contract_addr: &String, key: &Vec<u8>) -> (r: Result<
        MockResponse,
        QueryError,
    >)
        ensures
            raw_dispatch_spec(self.terraswap_pairs(), contract_addr@, key@, r),
    {
        if contract_addr.eq(&String::from_str("registry")) {
            return Ok(MockResponse::RegistryValue { text: String::from_str("mocked_registry_value") });
        }
        let pair_key = pair_info_storage_key();
        if bytes_eq(key.as_slice(), pair_key.as_slice()) {
            match self.terraswap_pair_querier.pair_info(contract_addr) {
                Some(record) => {
                    let canon_contract = canonicalize_addr(record.contract_addr.as_str());
                    let canon_lp = canonicalize_addr(record.liquidity_token.as_str());
                    let assets_ok = asset_canonicalizable(&record.asset_infos.0)
                        && asset_canonicalizable(&record.asset_infos.1);
                    match (canon_contract, canon_lp) {
                        (Some(contract_bytes), Some(lp_bytes)) => {
                            if assets_ok {
                                Ok(
                                    MockResponse::RawPairInfo {
                                        contract_addr: contract_bytes,
                                        liquidity_token: lp_bytes,
                                        asset_infos: (
                                            record.asset_infos.0.duplicate(),
                                            record.asset_infos.1.duplicate(),
                                        ),
                                        asset_decimals: (0, 0),
                                        pool_type: record.pool_type,
                                    },
                                )
                            } else {
                                Err(QueryError::UnhandledMockCase)
                            }
                        },
                        _ => Err(QueryError::UnhandledMockCase),
                    }
                },
                None => Err(
                    QueryError::PairInfoNotFound { contract_addr: contract_addr.clone() },
                ),
            }
        } else {
            Err(QueryError::UnhandledMockCase)
        }
    }
}

/// For every configured balance entry, a balance query addressed to a
/// generically mocked token contract returns exactly the configured amount.
pub proof fn lemma_balance_query_returns_amount(
    balances: Map<Seq<char>, Map<Seq<char>, u128>>,
    contract: Seq<char>,
    holder: Seq<char>,
    msg: Seq<u8>,
    r: Result<MockResponse, QueryError>,
)
    requires
        spec_role_of(contract) == MockRole::Cw20Generic,
        contract != "exceptional_token_without_normal_balance"@,
        cw20_balance_query_of(msg) == Some(holder),
        balances.contains_key(contract),
        balances[contract].contains_key(holder),
        smart_dispatch_spec(balances, contract, msg, r),
    ensures
        r == Ok::<MockResponse, QueryError>(
            MockResponse::Balance { amount: balances[contract][holder] },
        ),
{
}

/// A balance query for a contract with a configured balance table but an
/// unconfigured holder returns a zero amount, not an error.
pub proof fn lemma_balance_query_absent_holder_is_zero(
    balances: Map<Seq<char>, Map<Seq<char>, u128>>,
    contract: Seq<char>,
    holder: Seq<char>,
    msg: Seq<u8>,
    r: Result<MockResponse, QueryError>,
)
    requires
        spec_role_of(contract) == MockRole::Cw20Generic,
        contract != "exceptional_token_without_normal_balance"@,
        cw20_balance_query_of(msg) == Some(holder),
        balances.contains_key(contract),
        !balances[contract].contains_key(holder),
        smart_dispatch_spec(balances, contract, msg, r),
    ensures
        r == Ok::<MockResponse, QueryError>(MockResponse::Balance { amount: 0u128 }),
{
}

/// A balance query for a contract with no balance table at all reports the
/// no-balance-info error, naming the contract.
pub proof fn lemma_balance_query_absent_contract_errors(
    balances: Map<Seq<char>, Map<Seq<char>, u128>>,
    contract: Seq<char>,
    holder: Seq<char>,
    msg: Seq<u8>,
    r: Result<MockResponse, QueryError>,
)
    requires
        spec_role_of(contract) == MockRole::Cw20Generic,
        contract != "exceptional_token_without_normal_balance"@,
        cw20_balance_query_of(msg) == Some(holder),
        !balances.contains_key(contract),
        smart_dispatch_spec(balances, contract, msg, r),
    ensures
        r matches Err(QueryError::NoBalanceInfo { contract_addr }) && contract_addr@ == contract,
{
}

/// A raw pair-info lookup for a registered contract returns a record whose
/// addresses are the canonical form of the registered addresses, and whose
/// asset descriptors and pool type are the registered ones.
pub proof fn lemma_raw_lookup_canonicalizes(
    pairs: Map<Seq<char>, crate::registry::PairRecordView>,
    contract: Seq<char>,
    key: Seq<u8>,
    r: Result<MockResponse, QueryError>,
)
    requires
        contract != "registry"@,
        key == pair_info_key(),
        pairs.contains_key(contract),
        valid_human_addr(pairs[contract].contract_addr),
        valid_human_addr(pairs[contract].liquidity_token),
        canonicalizable_asset(pairs[contract].asset_infos.0),
        canonicalizable_asset(pairs[contract].asset_infos.1),
        raw_dispatch_spec(pairs, contract, key, r),
    ensures
        r matches Ok(
            MockResponse::RawPairInfo { contract_addr, liquidity_token, asset_infos, pool_type, .. },
        ) && contract_addr@ == canonical_of(pairs[contract].contract_addr) && liquidity_token@
            == canonical_of(pairs[contract].liquidity_token) && asset_infos.0@
            == pairs[contract].asset_infos.0 && asset_infos.1@ == pairs[contract].asset_infos.1
            && pool_type == pairs[contract].pool_type,
{
}

/// A raw pair-info lookup for an unregistered contract reports the
/// pair-info-not-found error, naming the contract.
pub proof fn lemma_raw_lookup_absent_errors(
    pairs: Map<Seq<char>, crate::registry::PairRecordView>,
    contract: Seq<char>,
    key: Seq<u8>,
    r: Result<MockResponse, QueryError>,
)
    requires
        contract != "registry"@,
        key == pair_info_key(),
        !pairs.contains_key(contract),
        raw_dispatch_spec(pairs, contract, key, r),
    ensures
        r matches Err(QueryError::PairInfoNotFound { contract_addr }) && contract_addr@
            == contract,
{
}

} // verus!
