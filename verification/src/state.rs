use vstd::prelude::*;

use crate::MINIMUM_COMMISSION;

verus! {

/// One asset the vault tracks: either a native-currency balance,
/// identified by its denomination, or a fungible-token balance,
/// identified by the token contract's address.
pub enum Asset {
    Native(String),
    Token(String),
}

/// Mathematical view of an [`Asset`].
pub enum AssetView {
    Native(Seq<char>),
    Token(Seq<char>),
}

impl View for Asset {
    type V = AssetView;

    open spec fn view(&self) -> AssetView {
        match self {
            Asset::Native(denom) => AssetView::Native(denom@),
            Asset::Token(addr) => AssetView::Token(addr@),
        }
    }
}

impl Asset {
    /// Deep copy; derived `Clone` would tell the verifier nothing.
    pub fn clone(&self) -> (r: Asset)
        ensures
            r@ == self@,
    {
        match self {
            Asset::Native(denom) => Asset::Native(denom.clone()),
            Asset::Token(addr) => Asset::Token(addr.clone()),
        }
    }
}

/// An amount of one native denomination.
pub struct Coin {
    pub denom: String,
    pub amount: u128,
}

/// Mathematical view of a [`Coin`].
pub struct CoinView {
    pub denom: Seq<char>,
    pub amount: u128,
}

impl View for Coin {
    type V = CoinView;

    open spec fn view(&self) -> CoinView {
        CoinView { denom: self.denom@, amount: self.amount }
    }
}

/// Deep copy of an asset list.
fn clone_assets(v: &Vec<Asset>) -> (r: Vec<Asset>)
    ensures
        assets_view(r@) == assets_view(v@),
{
    let mut r: Vec<Asset> = Vec::new();
    let mut i: usize = 0;
    while i < v.len()
        invariant
            i <= v.len(),
            r@.len() == i,
            forall|j: int| 0 <= j < i ==> #[trigger] r@[j]@ == v@[j]@,
        decreases v.len() - i,
    {
        r.push(v[i].clone());
        i = i + 1;
    }
    proof {
        assert(assets_view(r@) =~= assets_view(v@));
    }
    r
}

/// Deep copy of an address list.
fn clone_addrs(v: &Vec<String>) -> (r: Vec<String>)
    ensures
        addrs_view(r@) == addrs_view(v@),
{
    let mut r: Vec<String> = Vec::new();
    let mut i: usize = 0;
    while i < v.len()
        invariant
            i <= v.len(),
            r@.len() == i,
            forall|j: int| 0 <= j < i ==> #[trigger] r@[j]@ == v@[j]@,
        decreases v.len() - i,
    {
        r.push(v[i].clone());
        i = i + 1;
    }
    proof {
        assert(addrs_view(r@) =~= addrs_view(v@));
    }
    r
}

/// The persisted vault record.
///
/// `trader` is the Manager role and `funder` the Principal role.
/// `base_investment` is the accounting checkpoint: the balance baseline
/// below which no profit is recognized. `commission` is an integer
/// percentage between [`MINIMUM_COMMISSION`] and 100.
pub struct State {
    pub trader: String,
    pub trader_withdrawal_address: String,
    pub funder: String,
    pub assets: Vec<Asset>,
    pub whitelist: Vec<String>,
    pub trader_lock: bool,
    pub funder_lock: bool,
    pub base_investment: u128,
    pub commission: u8,
}

/// Mathematical view of a [`State`].
pub struct StateView {
    pub trader: Seq<char>,
    pub trader_withdrawal_address: Seq<char>,
    pub funder: Seq<char>,
    pub assets: Seq<AssetView>,
    pub whitelist: Seq<Seq<char>>,
    pub trader_lock: bool,
    pub funder_lock: bool,
    pub base_investment: u128,
    pub commission: u8,
}

/// View of a sequence of assets.
pub open spec fn assets_view(v: Seq<Asset>) -> Seq<AssetView> {
    v.map_values(|a: Asset| a@)
}

/// View of a sequence of addresses.
pub open spec fn addrs_view(v: Seq<String>) -> Seq<Seq<char>> {
    v.map_values(|a: String| a@)
}

/// View of a sequence of coins.
pub open spec fn coins_view(v: Seq<Coin>) -> Seq<CoinView> {
    v.map_values(|c: Coin| c@)
}

impl View for State {
    type V = StateView;

    open spec fn view(&self) -> StateView {
        StateView {
            trader: self.trader@,
            trader_withdrawal_address: self.trader_withdrawal_address@,
            funder: self.funder@,
            assets: assets_view(self.assets@),
            whitelist: addrs_view(self.whitelist@),
            trader_lock: self.trader_lock,
            funder_lock: self.funder_lock,
            base_investment: self.base_investment,
            commission: self.commission,
        }
    }
}

impl StateView {
    /// Well-formedness: the commission rate is a percentage no lower
    /// than the configured floor. Every constructor establishes it and
    /// every operation preserves it.
    pub open spec fn wf(self) -> bool {
        MINIMUM_COMMISSION <= self.commission <= 100
    }

    /// Whether `addr` is one of the whitelisted destinations.
    pub open spec fn whitelisted(self, addr: Seq<char>) -> bool {
        exists|i: int| 0 <= i < self.whitelist.len() && self.whitelist[i] == addr
    }
}

impl State {
    /// A fresh record for the given Manager and Principal: no assets,
    /// no whitelist, both locks open, a zero checkpoint, the commission
    /// floor, and the Manager's own address as the withdrawal address.
    pub fn new(trader: String, funder: String) -> (r: State)
        ensures
            r@ == (StateView {
                trader: trader@,
                trader_withdrawal_address: trader@,
                funder: funder@,
                assets: Seq::<AssetView>::empty(),
                whitelist: Seq::<Seq<char>>::empty(),
                trader_lock: false,
                funder_lock: false,
                base_investment: 0u128,
                commission: MINIMUM_COMMISSION,
            }),
            r@.wf(),
    {
        let withdrawal_address = trader.clone();
        let r = State {
            trader,
            trader_withdrawal_address: withdrawal_address,
            funder,
            assets: Vec::new(),
            whitelist: Vec::new(),
            trader_lock: false,
            funder_lock: false,
            base_investment: 0,
            commission: MINIMUM_COMMISSION,
        };
        assert(assets_view(r.assets@) =~= Seq::<AssetView>::empty());
        assert(addrs_view(r.whitelist@) =~= Seq::<Seq<char>>::empty());
        r
    }

    /// Deep copy; derived `Clone` would tell the verifier nothing.
    pub fn clone(&self) -> (r: State)
        ensures
            r@ == self@,
    {
        State {
            trader: self.trader.clone(),
            trader_withdrawal_address: self.trader_withdrawal_address.clone(),
            funder: self.funder.clone(),
            assets: clone_assets(&self.assets),
            whitelist: clone_addrs(&self.whitelist),
            trader_lock: self.trader_lock,
            funder_lock: self.funder_lock,
            base_investment: self.base_investment,
            commission: self.commission,
        }
    }
}

} // verus!
