use vstd::prelude::*;

use crate::allocator::{allocate, allocate_spec, balances_view, total_of};
use crate::error::ContractError;
use crate::instructions::{
    build_withdraw_instructions, instructions_view, withdraw_instructions, Instruction,
    InstructionView,
};
use crate::msg::{ExecuteMsg, InstantiateMsg, StateResponse};
use crate::state::{
    addrs_view, assets_view, coins_view, Asset, AssetView, Coin, CoinView, State, StateView,
};
use crate::MINIMUM_COMMISSION;

verus! {

/// The one denomination a deposit may consist of.
pub open spec fn base_denom() -> Seq<char> {
    "uluna"@
}

/// View of an operation that yields a new record and no instructions.
pub open spec fn state_result_view(r: Result<State, ContractError>) -> Result<
    StateView,
    ContractError,
> {
    match r {
        Ok(s) => Ok(s@),
        Err(e) => Err(e),
    }
}

/// View of an operation that yields one instruction.
pub open spec fn instruction_result_view(r: Result<Instruction, ContractError>) -> Result<
    InstructionView,
    ContractError,
> {
    match r {
        Ok(i) => Ok(i@),
        Err(e) => Err(e),
    }
}

/// View of an operation that yields a new record and instructions.
pub open spec fn outcome_result_view(r: Result<(State, Vec<Instruction>), ContractError>) -> Result<
    (StateView, Seq<InstructionView>),
    ContractError,
> {
    match r {
        Ok(p) => Ok((p.0@, instructions_view(p.1@))),
        Err(e) => Err(e),
    }
}

/// View of an optional address list.
pub open spec fn opt_addrs_view(o: Option<Vec<String>>) -> Option<Seq<Seq<char>>> {
    match o {
        Some(v) => Some(addrs_view(v@)),
        None => None,
    }
}

/// View of an optional asset list.
pub open spec fn opt_assets_view(o: Option<Vec<Asset>>) -> Option<Seq<AssetView>> {
    match o {
        Some(v) => Some(assets_view(v@)),
        None => None,
    }
}

/// View of an optional address.
pub open spec fn opt_addr_view(o: Option<String>) -> Option<Seq<char>> {
    match o {
        Some(a) => Some(a@),
        None => None,
    }
}

/// View of an optional coin list.
pub open spec fn opt_coins_view(o: Option<Vec<Coin>>) -> Option<Seq<CoinView>> {
    match o {
        Some(v) => Some(coins_view(v@)),
        None => None,
    }
}

/// View of an optional opaque payload.
pub open spec fn opt_bytes_view(o: Option<Vec<u8>>) -> Option<Seq<u8>> {
    match o {
        Some(v) => Some(v@),
        None => None,
    }
}

/// The record a vault starts from: the caller is the Manager, the
/// optional fields override the defaults of [`State::new`], and a
/// commission outside the allowed percentage range is ignored.
pub open spec fn instantiate_spec(sender: Seq<char>, msg: InstantiateMsg) -> StateView {
    StateView {
        trader: sender,
        trader_withdrawal_address: match msg.trader_withdrawal_address {
            Some(a) => a@,
            None => sender,
        },
        funder: msg.funder@,
        assets: match msg.assets {
            Some(a) => assets_view(a@),
            None => Seq::empty(),
        },
        whitelist: match msg.whitelist {
            Some(w) => addrs_view(w@),
            None => Seq::empty(),
        },
        trader_lock: false,
        funder_lock: false,
        base_investment: 0,
        commission: match msg.commission {
            Some(c) => if MINIMUM_COMMISSION <= c && c <= 100 {
                c
            } else {
                MINIMUM_COMMISSION
            },
            None => MINIMUM_COMMISSION,
        },
    }
}

/// Creates the vault record, exactly as [`instantiate_spec`] states.
pub fn instantiate(sender: String, msg: InstantiateMsg) -> (r: State)
    ensures
        r@ == instantiate_spec(sender@, msg),
        r@.wf(),
{
    let mut state = State::new(sender, msg.funder);
    if let Some(whitelist) = msg.whitelist {
        state.whitelist = whitelist;
    }
    if let Some(assets) = msg.assets {
        state.assets = assets;
    }
    if let Some(commission) = msg.commission {
        if commission >= MINIMUM_COMMISSION && commission <= 100 {
            state.commission = commission;
        }
    }
    if let Some(addr) = msg.trader_withdrawal_address {
        state.trader_withdrawal_address = addr;
    }
    state
}

/// Flipping the caller's own veto flag: the Principal's flag if the
/// caller is the Principal, else the Manager's flag if the caller is the
/// Manager; anyone else is turned away.
pub open spec fn toggle_lock_spec(s: StateView, sender: Seq<char>) -> Result<
    StateView,
    ContractError,
> {
    if sender == s.funder {
        Ok(StateView { funder_lock: !s.funder_lock, ..s })
    } else if sender == s.trader {
        Ok(StateView { trader_lock: !s.trader_lock, ..s })
    } else {
        Err(ContractError::Unauthorized)
    }
}

/// Flips the caller's own veto flag, exactly as [`toggle_lock_spec`] states.
pub fn toggle_lock(state: &State, sender: &String) -> (r: Result<State, ContractError>)
    ensures
        state_result_view(r) == toggle_lock_spec(state@, sender@),
        r matches Ok(s2) ==> s2@.wf() == state@.wf(),
{
    if *sender == state.funder {
        let mut new_state = state.clone();
        new_state.funder_lock = !new_state.funder_lock;
        Ok(new_state)
    } else if *sender == state.trader {
        let mut new_state = state.clone();
        new_state.trader_lock = !new_state.trader_lock;
        Ok(new_state)
    } else {
        Err(ContractError::Unauthorized)
    }
}

/// Redirecting the Manager's payout address: Manager only.
pub open spec fn update_owner_withdrawal_spec(s: StateView, sender: Seq<char>, address: Seq<char>) -> Result<
    StateView,
    ContractError,
> {
    if sender != s.trader {
        Err(ContractError::Unauthorized)
    } else {
        Ok(StateView { trader_withdrawal_address: address, ..s })
    }
}

/// Redirects the Manager's payouts, exactly as
/// [`update_owner_withdrawal_spec`] states.
pub fn update_owner_withdrawal(state: &State, sender: &String, address: String) -> (r: Result<
    State,
    ContractError,
>)
    ensures
        state_result_view(r) == update_owner_withdrawal_spec(state@, sender@, address@),
        r matches Ok(s2) ==> s2@.wf() == state@.wf(),
{
    if !(*sender == state.trader) {
        return Err(ContractError::Unauthorized);
    }
    let mut new_state = state.clone();
    new_state.trader_withdrawal_address = address;
    Ok(new_state)
}

/// Whether a deposit would be accepted: the Principal is calling and the
/// attached funds are exactly one coin of the base denomination.
pub open spec fn deposit_accepted(s: StateView, sender: Seq<char>, funds: Seq<CoinView>) -> bool {
    &&& sender == s.funder
    &&& funds.len() == 1
    &&& funds[0].denom == base_denom()
}

/// The Deposit Accumulator: an accepted deposit raises the accounting
/// checkpoint by the deposited amount, so new capital is never counted
/// as profit; any other shape is rejected.
pub open spec fn deposit_spec(s: StateView, sender: Seq<char>, funds: Seq<CoinView>) -> Result<
    StateView,
    ContractError,
> {
    if sender != s.funder {
        Err(ContractError::Unauthorized)
    } else if funds.len() != 1 {
        Err(ContractError::NoLunaReceived)
    } else if funds[0].denom != base_denom() {
        Err(ContractError::NoLunaReceived)
    } else {
        Ok(StateView { base_investment: (s.base_investment + funds[0].amount) as u128, ..s })
    }
}

/// Accepts the Principal's funding, exactly as [`deposit_spec`] states.
pub fn deposit(state: &State, sender: &String, funds: &Vec<Coin>) -> (r: Result<
    State,
    ContractError,
>)
    requires
        deposit_accepted(state@, sender@, coins_view(funds@)) ==> state@.base_investment
            + coins_view(funds@)[0].amount <= u128::MAX,
    ensures
        state_result_view(r) == deposit_spec(state@, sender@, coins_view(funds@)),
        r matches Ok(s2) ==> s2@.wf() == state@.wf(),
{
    if !(*sender == state.funder) {
        return Err(ContractError::Unauthorized);
    }
    if funds.len() != 1 {
        return Err(ContractError::NoLunaReceived);
    }
    let base: String = "uluna".to_owned();
    if !(funds[0].denom == base) {
        return Err(ContractError::NoLunaReceived);
    }
    let mut new_state = state.clone();
    new_state.base_investment = new_state.base_investment + funds[0].amount;
    Ok(new_state)
}

/// Withdrawal: the caller must hold one of the three payout-entitled
/// identities; the Waterfall Allocator then splits the snapshot and the
/// record's checkpoint moves to what the allocator computed. The
/// Principal's leg runs only when the Principal is the caller.
pub open spec fn withdraw_spec(
    s: StateView,
    sender: Seq<char>,
    bals: Seq<(AssetView, u128)>,
    amount: Option<u128>,
) -> Result<(StateView, Seq<InstructionView>), ContractError> {
    if sender != s.funder && sender != s.trader && sender != s.trader_withdrawal_address {
        Err(ContractError::Unauthorized)
    } else {
        match allocate_spec(bals, s.base_investment, s.commission, amount, sender == s.funder) {
            Ok(av) => Ok(
                (
                    StateView { base_investment: av.new_base_investment as u128, ..s },
                    withdraw_instructions(av.transfers, s.trader_withdrawal_address, s.funder),
                ),
            ),
            Err(e) => Err(e),
        }
    }
}

/// Runs the waterfall withdrawal, exactly as [`withdraw_spec`] states.
pub fn withdraw(
    state: &State,
    sender: &String,
    balances: &Vec<(Asset, u128)>,
    amount: Option<u128>,
) -> (r: Result<(State, Vec<Instruction>), ContractError>)
    requires
        state@.wf(),
        total_of(balances_view(balances@)) <= u128::MAX,
    ensures
        outcome_result_view(r) == withdraw_spec(
            state@,
            sender@,
            balances_view(balances@),
            amount,
        ),
        r matches Ok(p) ==> p.0@.wf(),
{
    let authorized = *sender == state.funder || *sender == state.trader || *sender
        == state.trader_withdrawal_address;
    if !authorized {
        return Err(ContractError::Unauthorized);
    }
    let requester_is_principal = *sender == state.funder;
    match allocate(balances, state.base_investment, state.commission, amount, requester_is_principal) {
        Ok(a) => {
            let instrs = build_withdraw_instructions(
                &a.transfers,
                &state.trader_withdrawal_address,
                &state.funder,
            );
            let mut new_state = state.clone();
            new_state.base_investment = a.new_base_investment;
            Ok((new_state, instrs))
        },
        Err(e) => Err(e),
    }
}

/// One configuration pass: each supplied field replaces the stored one,
/// except that a commission outside the allowed percentage range is
/// ignored and a new Principal is ignored unless the vault currently
/// holds nothing.
pub open spec fn apply_config(
    s: StateView,
    whitelist: Option<Seq<Seq<char>>>,
    assets: Option<Seq<AssetView>>,
    commission: Option<u8>,
    user: Option<Seq<char>>,
    bals: Seq<(AssetView, u128)>,
) -> StateView {
    let s1 = match whitelist {
        Some(w) => StateView { whitelist: w, ..s },
        None => s,
    };
    let s2 = match assets {
        Some(a) => StateView { assets: a, ..s1 },
        None => s1,
    };
    let s3 = match commission {
        Some(c) => if MINIMUM_COMMISSION <= c && c <= 100 {
            StateView { commission: c, ..s2 }
        } else {
            s2
        },
        None => s2,
    };
    match user {
        Some(u) => if total_of(bals) == 0 {
            StateView { funder: u, ..s3 }
        } else {
            s3
        },
        None => s3,
    }
}

/// Configuration mutation under the mutual veto: the Manager may mutate
/// unless the Principal has locked, the Principal may mutate unless the
/// Manager has locked, and nobody else may mutate at all. The snapshot
/// is consulted only for the zero-balance gate on reassigning the
/// Principal, and must cover the asset list as it stands after this call.
pub open spec fn update_state_spec(
    s: StateView,
    sender: Seq<char>,
    whitelist: Option<Seq<Seq<char>>>,
    assets: Option<Seq<AssetView>>,
    commission: Option<u8>,
    user: Option<Seq<char>>,
    bals: Seq<(AssetView, u128)>,
) -> Result<StateView, ContractError> {
    if sender == s.trader {
        if s.funder_lock {
            Err(ContractError::Locked)
        } else {
            Ok(apply_config(s, whitelist, assets, commission, user, bals))
        }
    } else if sender == s.funder {
        if s.trader_lock {
            Err(ContractError::Locked)
        } else {
            Ok(apply_config(s, whitelist, assets, commission, user, bals))
        }
    } else {
        Err(ContractError::Unauthorized)
    }
}

/// Mutates the configuration, exactly as [`update_state_spec`] states.
pub fn update_state(
    state: &State,
    sender: &String,
    whitelist: Option<Vec<String>>,
    assets: Option<Vec<Asset>>,
    commission: Option<u8>,
    user: Option<String>,
    balances: &Vec<(Asset, u128)>,
) -> (r: Result<State, ContractError>)
    requires
        total_of(balances_view(balances@)) <= u128::MAX,
    ensures
        state_result_view(r) == update_state_spec(
            state@,
            sender@,
            opt_addrs_view(whitelist),
            opt_assets_view(assets),
            commission,
            opt_addr_view(user),
            balances_view(balances@),
        ),
        (state@.wf() && r is Ok) ==> (r matches Ok(s2) && s2@.wf()),
{
    if *sender == state.trader {
        if state.funder_lock {
            return Err(ContractError::Locked);
        }
    } else if *sender == state.funder {
        if state.trader_lock {
            return Err(ContractError::Locked);
        }
    } else {
        return Err(ContractError::Unauthorized);
    }

    let mut new_state = state.clone();
    if let Some(val) = whitelist {
        new_state.whitelist = val;
    }
    if let Some(val) = assets {
        new_state.assets = val;
    }
    if let Some(val) = commission {
        if val >= MINIMUM_COMMISSION && val <= 100 {
            new_state.commission = val;
        }
    }
    if let Some(val) = user {
        let total = crate::allocator::sum_balances(balances);
        if total == 0 {
            new_state.funder = val;
        }
    }
    Ok(new_state)
}

/// Manager-directed relay of native coins: the caller must be the
/// Manager and the destination whitelisted. With a payload the coins
/// ride on a contract invocation; without one they are a plain send.
/// The record itself is untouched.
pub open spec fn send_native_spec(
    s: StateView,
    sender: Seq<char>,
    address: Seq<char>,
    funds: Option<Seq<CoinView>>,
    payload: Option<Seq<u8>>,
) -> Result<InstructionView, ContractError> {
    if sender != s.trader {
        Err(ContractError::Unauthorized)
    } else if !s.whitelisted(address) {
        Err(ContractError::NotWhitelisted)
    } else {
        let coins = match funds {
            Some(c) => c,
            None => Seq::empty(),
        };
        match payload {
            Some(p) => Ok(InstructionView::NativeExec { contract: address, coins, payload: p }),
            None => Ok(InstructionView::NativeSend { to: address, coins }),
        }
    }
}

/// Whether `addr` occurs in `list`.
fn contains_addr(list: &Vec<String>, addr: &String) -> (found: bool)
    ensures
        found == exists|i: int| 0 <= i < list@.len() && addrs_view(list@)[i] == addr@,
{
    let mut i: usize = 0;
    while i < list.len()
        invariant
            i <= list.len(),
            forall|j: int| 0 <= j < i ==> addrs_view(list@)[j] != addr@,
        decreases list.len() - i,
    {
        if list[i] == *addr {
            assert(addrs_view(list@)[i as int] == addr@);
            return true;
        }
        i = i + 1;
    }
    false
}

/// Relays native coins, exactly as [`send_native_spec`] states.
pub fn send_native(
    state: &State,
    sender: &String,
    address: String,
    funds: Option<Vec<Coin>>,
    msg: Option<Vec<u8>>,
) -> (r: Result<Instruction, ContractError>)
    ensures
        instruction_result_view(r) == send_native_spec(
            state@,
            sender@,
            address@,
            opt_coins_view(funds),
            opt_bytes_view(msg),
        ),
{
    if !(*sender == state.trader) {
        return Err(ContractError::Unauthorized);
    }
    if !contains_addr(&state.whitelist, &address) {
        return Err(ContractError::NotWhitelisted);
    }
    let coins: Vec<Coin> = match funds {
        Some(val) => val,
        None => Vec::new(),
    };
    proof {
        assert(coins_view(Seq::<Coin>::empty()) =~= Seq::<CoinView>::empty());
    }
    match msg {
        Some(payload) => Ok(Instruction::NativeExec { contract: address, coins, payload }),
        None => Ok(Instruction::NativeSend { to: address, coins }),
    }
}

/// Manager-directed relay of tokens: the caller must be the Manager and
/// the destination whitelisted. With a payload the tokens go to a
/// contract; without one they go to a wallet. The record is untouched.
pub open spec fn send_cw20_spec(
    s: StateView,
    sender: Seq<char>,
    address: Seq<char>,
    token_addr: Seq<char>,
    amount: u128,
    payload: Option<Seq<u8>>,
) -> Result<InstructionView, ContractError> {
    if sender != s.trader {
        Err(ContractError::Unauthorized)
    } else if !s.whitelisted(address) {
        Err(ContractError::NotWhitelisted)
    } else {
        match payload {
            Some(p) => Ok(
                InstructionView::TokenSend { token: token_addr, to: address, amount, payload: p },
            ),
            None => Ok(InstructionView::TokenTransfer { token: token_addr, to: address, amount }),
        }
    }
}

/// Relays tokens, exactly as [`send_cw20_spec`] states.
pub fn send_cw20(
    state: &State,
    sender: &String,
    address: String,
    token_addr: String,
    amount: u128,
    msg: Option<Vec<u8>>,
) -> (r: Result<Instruction, ContractError>)
    ensures
        instruction_result_view(r) == send_cw20_spec(
            state@,
            sender@,
            address@,
            token_addr@,
            amount,
            opt_bytes_view(msg),
        ),
{
    if !(*sender == state.trader) {
        return Err(ContractError::Unauthorized);
    }
    if !contains_addr(&state.whitelist, &address) {
        return Err(ContractError::NotWhitelisted);
    }
    match msg {
        Some(payload) => Ok(
            Instruction::TokenSend { token: token_addr, to: address, amount, payload },
        ),
        None => Ok(Instruction::TokenTransfer { token: token_addr, to: address, amount }),
    }
}

/// One operation dispatched to its handler. Handlers that touch no
/// instruction list report an empty one; the relay handlers leave the
/// record as it was and report the one instruction they built.
pub open spec fn execute_spec(
    s: StateView,
    sender: Seq<char>,
    funds: Seq<CoinView>,
    bals: Seq<(AssetView, u128)>,
    msg: ExecuteMsg,
) -> Result<(StateView, Seq<InstructionView>), ContractError> {
    match msg {
        ExecuteMsg::ToggleLock {} => match toggle_lock_spec(s, sender) {
            Ok(s2) => Ok((s2, Seq::empty())),
            Err(e) => Err(e),
        },
        ExecuteMsg::Deposit {} => match deposit_spec(s, sender, funds) {
            Ok(s2) => Ok((s2, Seq::empty())),
            Err(e) => Err(e),
        },
        ExecuteMsg::Withdraw { amount } => withdraw_spec(s, sender, bals, amount),
        ExecuteMsg::UpdateState { whitelist, assets, commission, user } => match update_state_spec(
            s,
            sender,
            opt_addrs_view(whitelist),
            opt_assets_view(assets),
            commission,
            opt_addr_view(user),
            bals,
        ) {
            Ok(s2) => Ok((s2, Seq::empty())),
            Err(e) => Err(e),
        },
        ExecuteMsg::SendNative { address, funds: relay_funds, msg: payload } => match send_native_spec(
            s,
            sender,
            address@,
            opt_coins_view(relay_funds),
            opt_bytes_view(payload),
        ) {
            Ok(instr) => Ok((s, seq![instr])),
            Err(e) => Err(e),
        },
        ExecuteMsg::SendCw20 { address, token_addr, amount, msg: payload } => match send_cw20_spec(
            s,
            sender,
            address@,
            token_addr@,
            amount,
            opt_bytes_view(payload),
        ) {
            Ok(instr) => Ok((s, seq![instr])),
            Err(e) => Err(e),
        },
        ExecuteMsg::UpdateWithdrawal { address } => match update_owner_withdrawal_spec(
            s,
            sender,
            address@,
        ) {
            Ok(s2) => Ok((s2, Seq::empty())),
            Err(e) => Err(e),
        },
    }
}

/// Dispatches one operation, exactly as [`execute_spec`] states.
///
/// `funds` are the coins attached to the call; `balances` is the host's
/// point-in-time snapshot of the registered assets (only consulted by
/// withdrawal and by Principal reassignment).
pub fn execute(
    state: &State,
    sender: &String,
    funds: &Vec<Coin>,
    balances: &Vec<(Asset, u128)>,
    msg: ExecuteMsg,
) -> (r: Result<(State, Vec<Instruction>), ContractError>)
    requires
        state@.wf(),
        total_of(balances_view(balances@)) <= u128::MAX,
        deposit_accepted(state@, sender@, coins_view(funds@)) ==> state@.base_investment
            + coins_view(funds@)[0].amount <= u128::MAX,
    ensures
        outcome_result_view(r) == execute_spec(
            state@,
            sender@,
            coins_view(funds@),
            balances_view(balances@),
            msg,
        ),
        r matches Ok(p) ==> p.0@.wf(),
{
    proof {
        assert(instructions_view(Seq::<Instruction>::empty()) =~= Seq::<InstructionView>::empty());
    }
    match msg {
        ExecuteMsg::ToggleLock {} => match toggle_lock(state, sender) {
            Ok(s2) => Ok((s2, Vec::new())),
            Err(e) => Err(e),
        },
        ExecuteMsg::Deposit {} => match deposit(state, sender, funds) {
            Ok(s2) => Ok((s2, Vec::new())),
            Err(e) => Err(e),
        },
        ExecuteMsg::Withdraw { amount } => withdraw(state, sender, balances, amount),
        ExecuteMsg::UpdateState { whitelist, assets, commission, user } => match update_state(
            state,
            sender,
            whitelist,
            assets,
            commission,
            user,
            balances,
        ) {
            Ok(s2) => Ok((s2, Vec::new())),
            Err(e) => Err(e),
        },
        ExecuteMsg::SendNative { address, funds: relay_funds, msg: payload } => match send_native(
            state,
            sender,
            address,
            relay_funds,
            payload,
        ) {
            Ok(instr) => {
                let mut instrs: Vec<Instruction> = Vec::new();
                instrs.push(instr);
                proof {
                    assert(instructions_view(instrs@) =~= seq![instrs@[0]@]);
                }
                Ok((state.clone(), instrs))
            },
            Err(e) => Err(e),
        },
        ExecuteMsg::SendCw20 { address, token_addr, amount, msg: payload } => match send_cw20(
            state,
            sender,
            address,
            token_addr,
            amount,
            payload,
        ) {
            Ok(instr) => {
                let mut instrs: Vec<Instruction> = Vec::new();
                instrs.push(instr);
                proof {
                    assert(instructions_view(instrs@) =~= seq![instrs@[0]@]);
                }
                Ok((state.clone(), instrs))
            },
            Err(e) => Err(e),
        },
        ExecuteMsg::UpdateWithdrawal { address } => match update_owner_withdrawal(
            state,
            sender,
            address,
        ) {
            Ok(s2) => Ok((s2, Vec::new())),
            Err(e) => Err(e),
        },
    }
}

/// Answers [`crate::msg::QueryMsg::GetState`]: a faithful snapshot of
/// the record.
pub fn query_state(state: &State) -> (r: StateResponse)
    ensures
        r.state@ == state@,
{
    StateResponse { state: state.clone() }
}

} // verus!
