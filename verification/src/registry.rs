//! Registries of canned domain data.
//!
//! A registry maps identifiers to the data a mocked query should answer with:
//! token balances per contract and holder, and pair metadata per contract
//! address.  A registry is built wholesale from a list of entries — building
//! again replaces the previous contents — and later entries for the same key
//! override earlier ones.  Lookup never fails; absence is an explicit option.

use vstd::prelude::*;

verus! {

/// The association map a list of keyed entries denotes: each entry inserts
/// its value under its key, so a later entry for the same key wins.
pub open spec fn assoc_map<V>(s: Seq<(Seq<char>, V)>) -> Map<Seq<char>, V>
    decreases s.len(),
{
    if s.len() == 0 {
        Map::empty()
    } else {
        assoc_map(s.drop_last()).insert(s.last().0, s.last().1)
    }
}

/// If position `i` holds the last entry for key `k`, the map holds its value.
pub proof fn lemma_assoc_map_found<V>(s: Seq<(Seq<char>, V)>, k: Seq<char>, i: int)
    requires
        0 <= i < s.len(),
        s[i].0 == k,
        forall|j: int| i < j < s.len() ==> s[j].0 != k,
    ensures
        assoc_map(s).contains_key(k),
        assoc_map(s)[k] == s[i].1,
    decreases s.len(),
{
    if i == s.len() - 1 {
    } else {
        lemma_assoc_map_found(s.drop_last(), k, i);
    }
}

/// A key no entry carries is not in the map.
pub proof fn lemma_assoc_map_absent<V>(s: Seq<(Seq<char>, V)>, k: Seq<char>)
    requires
        forall|j: int| 0 <= j < s.len() ==> s[j].0 != k,
    ensures
        !assoc_map(s).contains_key(k),
    decreases s.len(),
{
    if s.len() > 0 {
        lemma_assoc_map_absent(s.drop_last(), k);
    }
}

/// What one token contract's holder list denotes.
pub open spec fn holders_to_map(s: Seq<(String, u128)>) -> Map<Seq<char>, u128> {
    assoc_map(s.map_values(|e: (String, u128)| (e.0@, e.1)))
}

/// What a balance entry list denotes: per contract, a map from holder to
/// amount.
pub open spec fn balances_to_map(s: Seq<(String, Vec<(String, u128)>)>) -> Map<
    Seq<char>,
    Map<Seq<char>, u128>,
> {
    assoc_map(s.map_values(|e: (String, Vec<(String, u128)>)| (e.0@, holders_to_map(e.1@))))
}

/// An asset a pool may hold: a cw20 token contract or a native coin.
#[derive(Debug)]
pub enum AssetInfo {
    Token { contract_addr: String },
    NativeToken { denom: String },
}

impl AssetInfo {
    /// An owned copy of the asset descriptor.
    pub fn duplicate(&self) -> (r: AssetInfo)
        ensures
            r@ == self@,
    {
        match self {
            AssetInfo::Token { contract_addr } => AssetInfo::Token {
                contract_addr: contract_addr.clone(),
            },
            AssetInfo::NativeToken { denom } => AssetInfo::NativeToken { denom: denom.clone() },
        }
    }
}

/// The pool flavour a pair runs.
#[derive(Clone, Copy, Debug, PartialEq, Eq, Structural)]
pub enum PoolType {
    Xyk,
    Stable,
}

/// Pair metadata a registry holds for one pool-bearing contract address.
#[derive(Debug)]
pub struct PairRecord {
    pub asset_infos: (AssetInfo, AssetInfo),
    pub contract_addr: String,
    pub liquidity_token: String,
    pub pool_type: PoolType,
}

/// Mathematical image of an [`AssetInfo`].
pub enum AssetInfoView {
    Token { contract_addr: Seq<char> },
    NativeToken { denom: Seq<char> },
}

/// Mathematical image of a [`PairRecord`].
pub struct PairRecordView {
    pub asset_infos: (AssetInfoView, AssetInfoView),
    pub contract_addr: Seq<char>,
    pub liquidity_token: Seq<char>,
    pub pool_type: PoolType,
}

impl View for AssetInfo {
    type V = AssetInfoView;

    open spec fn view(&self) -> AssetInfoView {
        match self {
            AssetInfo::Token { contract_addr } => AssetInfoView::Token {
                contract_addr: contract_addr@,
            },
            AssetInfo::NativeToken { denom } => AssetInfoView::NativeToken { denom: denom@ },
        }
    }
}

impl View for PairRecord {
    type V = PairRecordView;

    open spec fn view(&self) -> PairRecordView {
        PairRecordView {
            asset_infos: (self.asset_infos.0@, self.asset_infos.1@),
            contract_addr: self.contract_addr@,
            liquidity_token: self.liquidity_token@,
            pool_type: self.pool_type,
        }
    }
}

/// What a pair entry list denotes: a map from contract address to pair
/// metadata.
pub open spec fn pairs_to_map(s: Seq<(String, PairRecord)>) -> Map<Seq<char>, PairRecordView> {
    assoc_map(s.map_values(|e: (String, PairRecord)| (e.0@, e.1@)))
}

/// Canned token balances, addressed by contract and holder.
pub struct TokenQuerier {
    balances: Vec<(String, Vec<(String, u128)>)>,
}

impl View for TokenQuerier {
    type V = Map<Seq<char>, Map<Seq<char>, u128>>;

    closed spec fn view(&self) -> Map<Seq<char>, Map<Seq<char>, u128>> {
        balances_to_map(self.balances@)
    }
}

impl TokenQuerier {
    /// Build the balance registry wholesale from the given entries,
    /// discarding any earlier contents.
    pub fn new(balances: Vec<(String, Vec<(String, u128)>)>) -> (r: Self)
        ensures
            r@ == balances_to_map(balances@),
    {
        TokenQuerier { balances }
    }

    /// Whether any balance table is configured for the contract.
    pub fn has_contract(&self, contract: &String) -> (r: bool)
        ensures
            r == self@.contains_key(contract@),
    {
        let n: usize = self.balances.len();
        let mut i: usize = n;
        while i > 0
            invariant
                i <= n,
                n == self.balances.len(),
                forall|j: int| i <= j < n ==> self.balances@[j].0@ != contract@,
            decreases i,
        {
            i -= 1;
            if self.balances[i].0.eq(contract) {
                proof {
                    lemma_assoc_map_found(
                        self.balances@.map_values(
                            |e: (String, Vec<(String, u128)>)| (e.0@, holders_to_map(e.1@)),
                        ),
                        contract@,
                        i as int,
                    );
                }
                return true;
            }
        }
        proof {
            lemma_assoc_map_absent(
                self.balances@.map_values(
                    |e: (String, Vec<(String, u128)>)| (e.0@, holders_to_map(e.1@)),
                ),
                contract@,
            );
        }
        false
    }

    /// The configured amount for the holder at the contract, if both are
    /// configured.
    pub fn balance(&self, contract: &String, holder: &String) -> (r: Option<u128>)
        ensures
            self@.contains_key(contract@) && self@[contract@].contains_key(holder@) ==> r
                == Some(self@[contract@][holder@]),
            !(self@.contains_key(contract@) && self@[contract@].contains_key(holder@)) ==> r
                is None,
    {
        let n: usize = self.balances.len();
        let mut i: usize = n;
        while i > 0
            invariant
                i <= n,
                n == self.balances.len(),
                forall|j: int| i <= j < n ==> self.balances@[j].0@ != contract@,
            decreases i,
        {
            i -= 1;
            if self.balances[i].0.eq(contract) {
                proof {
                    lemma_assoc_map_found(
                        self.balances@.map_values(
                            |e: (String, Vec<(String, u128)>)| (e.0@, holders_to_map(e.1@)),
                        ),
                        contract@,
                        i as int,
                    );
                }
                return Self::holder_amount(&self.balances[i].1, holder);
            }
        }
        proof {
            lemma_assoc_map_absent(
                self.balances@.map_values(
                    |e: (String, Vec<(String, u128)>)| (e.0@, holders_to_map(e.1@)),
                ),
                contract@,
            );
        }
        None
    }

    /// The last amount the holder list carries for the holder, if any.
    fn holder_amount(holders: &Vec<(String, u128)>, holder: &String) -> (r: Option<u128>)
        ensures
            holders_to_map(holders@).contains_key(holder@) ==> r == Some(
                holders_to_map(holders@)[holder@],
            ),
            !holders_to_map(holders@).contains_key(holder@) ==> r is None,
    {
        let n: usize = holders.len();
        let mut i: usize = n;
        while i > 0
            invariant
                i <= n,
                n == holders.len(),
                forall|j: int| i <= j < n ==> holders@[j].0@ != holder@,
            decreases i,
        {
            i -= 1;
            if holders[i].0.eq(holder) {
                proof {
                    lemma_assoc_map_found(
                        holders@.map_values(|e: (String, u128)| (e.0@, e.1)),
                        holder@,
                        i as int,
                    );
                }
                return Some(holders[i].1);
            }
        }
        proof {
            lemma_assoc_map_absent(holders@.map_values(|e: (String, u128)| (e.0@, e.1)), holder@);
        }
        None
    }
}

/// Canned pair metadata for the raw-lookup path, keyed by contract address.
pub struct TerraswapPairQuerier {
    pairs: Vec<(String, PairRecord)>,
}

impl View for TerraswapPairQuerier {
    type V = Map<Seq<char>, PairRecordView>;

    closed spec fn view(&self) -> Map<Seq<char>, PairRecordView> {
        pairs_to_map(self.pairs@)
    }
}

impl TerraswapPairQuerier {
    /// Build the pair registry wholesale from the given entries, discarding
    /// any earlier contents.
    pub fn new(pairs: Vec<(String, PairRecord)>) -> (r: Self)
        ensures
            r@ == pairs_to_map(pairs@),
    {
        TerraswapPairQuerier { pairs }
    }

    /// The pair metadata registered for the contract, if any.
    pub fn pair_info(&self, contract: &String) -> (r: Option<&PairRecord>)
        ensures
            self@.contains_key(contract@) ==> (r matches Some(p) && p@ == self@[contract@]),
            !self@.contains_key(contract@) ==> r is None,
    {
        let n: usize = self.pairs.len();
        let mut i: usize = n;
        while i > 0
            invariant
                i <= n,
                n == self.pairs.len(),
                forall|j: int| i <= j < n ==> self.pairs@[j].0@ != contract@,
            decreases i,
        {
            i -= 1;
            if self.pairs[i].0.eq(contract) {
                proof {
                    lemma_assoc_map_found(
                        self.pairs@.map_values(|e: (String, PairRecord)| (e.0@, e.1@)),
                        contract@,
                        i as int,
                    );
                }
                return Some(&self.pairs[i].1);
            }
        }
        proof {
            lemma_assoc_map_absent(
                self.pairs@.map_values(|e: (String, PairRecord)| (e.0@, e.1@)),
                contract@,
            );
        }
        None
    }
}

/// Canned pair metadata for factory-style lookups, keyed by contract address.
pub struct AstroportFactoryQuerier {
    pairs: Vec<(String, PairRecord)>,
}

impl View for AstroportFactoryQuerier {
    type V = Map<Seq<char>, PairRecordView>;

    closed spec fn view(&self) -> Map<Seq<char>, PairRecordView> {
        pairs_to_map(self.pairs@)
    }
}

impl AstroportFactoryQuerier {
    /// Build the factory pair registry wholesale from the given entries,
    /// discarding any earlier contents.
    pub fn new(pairs: Vec<(String, PairRecord)>) -> (r: Self)
        ensures
            r@ == pairs_to_map(pairs@),
    {
        AstroportFactoryQuerier { pairs }
    }
}

/// Building a balance registry from the same entries always yields the same
/// registry: repeated identical builds have identical query behaviour, since
/// every lookup is determined by the registry's map.
pub proof fn lemma_balance_build_idempotent(
    a: TokenQuerier,
    b: TokenQuerier,
    entries: Seq<(String, Vec<(String, u128)>)>,
)
    requires
        a@ == balances_to_map(entries),
        b@ == balances_to_map(entries),
    ensures
        a@ == b@,
{
}

/// Building a pair registry from the same entries always yields the same
/// registry: repeated identical builds have identical query behaviour, since
/// every lookup is determined by the registry's map.
pub proof fn lemma_pair_build_idempotent(
    a: TerraswapPairQuerier,
    b: TerraswapPairQuerier,
    entries: Seq<(String, PairRecord)>,
)
    requires
        a@ == pairs_to_map(entries),
        b@ == pairs_to_map(entries),
    ensures
        a@ == b@,
{
}

} // verus!
