use vstd::prelude::*;

use crate::state::{Asset, Coin, State};

verus! {

/// One key/value pair of a configuration listing.
pub struct ConfigItem {
    pub key: String,
    pub value: String,
}

/// The request that creates a vault. The caller becomes the Manager
/// (`trader`); every other field is optional and defaulted.
pub struct InstantiateMsg {
    pub funder: String,
    pub trader_withdrawal_address: Option<String>,
    pub whitelist: Option<Vec<String>>,
    pub assets: Option<Vec<Asset>>,
    pub commission: Option<u8>,
}

/// The execute-style operations the vault accepts.
pub enum ExecuteMsg {
    /// Flip the caller's own veto flag.
    ToggleLock {},
    /// Mutate the configuration; each field is applied only if present.
    UpdateState {
        whitelist: Option<Vec<String>>,
        assets: Option<Vec<Asset>>,
        commission: Option<u8>,
        user: Option<String>,
    },
    /// Manager-directed relay of native coins to a whitelisted destination.
    SendNative { address: String, funds: Option<Vec<Coin>>, msg: Option<Vec<u8>> },
    /// Manager-directed relay of tokens to a whitelisted destination.
    SendCw20 { address: String, token_addr: String, amount: u128, msg: Option<Vec<u8>> },
    /// Principal funding; the deposited coins ride along with the call.
    Deposit {},
    /// Run the waterfall, withdrawing everything or a capped amount.
    Withdraw { amount: Option<u128> },
    /// Redirect the Manager's commission payouts.
    UpdateWithdrawal { address: String },
}

/// The read-only queries the vault answers.
pub enum QueryMsg {
    /// The full vault record: whitelist, assets, roles, locks,
    /// checkpoint and commission.
    GetState {},
}

/// Answer to [`QueryMsg::GetState`].
pub struct StateResponse {
    pub state: State,
}

} // verus!
