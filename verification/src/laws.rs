use vstd::prelude::*;

use crate::allocator::{
    allocate_spec, commission_of, lemma_total_of_nonneg, lemma_waterfall,
    lemma_waterfall_untouched, paid_to, total_of, waterfall, Role,
};
use crate::contract::{
    base_denom, deposit_spec, send_cw20_spec, send_native_spec, update_state_spec, withdraw_spec,
};
use crate::error::ContractError;
use crate::state::{AssetView, CoinView, StateView};

verus! {

/// The commission carved from a profit is never negative and never
/// exceeds that profit.
pub proof fn lemma_commission_bounds(profit: int, rate: u8)
    requires
        profit >= 0,
        rate <= 100,
    ensures
        0 <= commission_of(profit, rate) <= profit,
{
    assert(0 <= profit * rate) by (nonlinear_arith)
        requires
            profit >= 0,
            rate >= 0,
    ;
    assert(profit * rate <= profit * 100) by (nonlinear_arith)
        requires
            profit >= 0,
            rate <= 100,
    ;
    vstd::arithmetic::div_mod::lemma_div_of0(100);
    vstd::arithmetic::div_mod::lemma_div_is_ordered(0, profit * rate, 100);
    vstd::arithmetic::div_mod::lemma_div_is_ordered(profit * rate, profit * 100, 100);
    vstd::arithmetic::div_mod::lemma_div_multiples_vanish(profit, 100);
}

/// Bookkeeping stays within the holdings: whenever the allocator
/// succeeds, the new checkpoint equals — and so never exceeds — the
/// total the vault still holds once the emitted transfers are executed.
pub proof fn lemma_new_base_within_remaining(
    bals: Seq<(AssetView, u128)>,
    base_investment: u128,
    commission_rate: u8,
    requested_principal_amount: Option<u128>,
    requester_is_principal: bool,
)
    requires
        commission_rate <= 100,
        total_of(bals) <= u128::MAX,
    ensures
        allocate_spec(
            bals,
            base_investment,
            commission_rate,
            requested_principal_amount,
            requester_is_principal,
        ) matches Ok(av) ==> 0 <= av.new_base_investment <= u128::MAX
            && av.new_base_investment == total_of(av.leftover),
{
    let t = total_of(bals);
    lemma_total_of_nonneg(bals);
    if base_investment <= t {
        let c_due = commission_of(t - base_investment, commission_rate);
        lemma_commission_bounds(t - base_investment, commission_rate);
        let p_target: int = if requester_is_principal {
            match requested_principal_amount {
                Some(a) => a as int,
                None => t - c_due,
            }
        } else {
            0
        };
        lemma_waterfall(bals, c_due as u128, p_target as u128);
    }
}

/// Waterfall priority: whenever the allocator succeeds, the Manager's
/// realized transfers sum exactly to the commission due — never more,
/// never less. (On success the commission due never exceeds the total,
/// because profit is measured against a checkpoint the total covers.)
pub proof fn lemma_commission_priority(
    bals: Seq<(AssetView, u128)>,
    base_investment: u128,
    commission_rate: u8,
    requested_principal_amount: Option<u128>,
    requester_is_principal: bool,
)
    requires
        commission_rate <= 100,
        total_of(bals) <= u128::MAX,
    ensures
        allocate_spec(
            bals,
            base_investment,
            commission_rate,
            requested_principal_amount,
            requester_is_principal,
        ) matches Ok(av) ==> paid_to(av.transfers, Role::Manager) == commission_of(
            total_of(bals) - base_investment,
            commission_rate,
        ),
{
    let t = total_of(bals);
    lemma_total_of_nonneg(bals);
    if base_investment <= t {
        let c_due = commission_of(t - base_investment, commission_rate);
        lemma_commission_bounds(t - base_investment, commission_rate);
        let p_target: int = if requester_is_principal {
            match requested_principal_amount {
                Some(a) => a as int,
                None => t - c_due,
            }
        } else {
            0
        };
        lemma_waterfall(bals, c_due as u128, p_target as u128);
    }
}

/// Idempotence of an uncapped withdrawal: running the allocator a
/// second time for the same caller, on what the first run left behind
/// and with the checkpoint the first run set, emits no transfers at all
/// and keeps the checkpoint where the first run put it — all profit was
/// already skimmed, and a Principal caller drove the checkpoint to zero.
pub proof fn lemma_withdraw_idempotent(
    bals: Seq<(AssetView, u128)>,
    base_investment: u128,
    commission_rate: u8,
    requester_is_principal: bool,
)
    requires
        commission_rate <= 100,
        total_of(bals) <= u128::MAX,
        base_investment <= total_of(bals),
    ensures
        ({
            let first = allocate_spec(
                bals,
                base_investment,
                commission_rate,
                None,
                requester_is_principal,
            );
            first matches Ok(a1) && (requester_is_principal ==> a1.new_base_investment == 0) && {
                let second = allocate_spec(
                    a1.leftover,
                    a1.new_base_investment as u128,
                    commission_rate,
                    None,
                    requester_is_principal,
                );
                second matches Ok(a2) && a2.transfers =~= Seq::<(Role, AssetView, u128)>::empty()
                    && a2.new_base_investment == a1.new_base_investment
            }
        }),
{
    let t = total_of(bals);
    lemma_total_of_nonneg(bals);
    let c_due = commission_of(t - base_investment, commission_rate);
    lemma_commission_bounds(t - base_investment, commission_rate);
    let p_target: int = if requester_is_principal {
        t - c_due
    } else {
        0
    };
    lemma_waterfall(bals, c_due as u128, p_target as u128);
    let a1 = allocate_spec(bals, base_investment, commission_rate, None, requester_is_principal)->Ok_0;
    assert(total_of(a1.leftover) == a1.new_base_investment);
    lemma_total_of_nonneg(a1.leftover);
    assert(commission_of(0, commission_rate) == 0) by {
        vstd::arithmetic::div_mod::lemma_div_of0(100);
    }
    lemma_waterfall_untouched(a1.leftover);
    assert(waterfall(a1.leftover, 0 as u128, 0 as u128).principal_left == 0);
}

/// Deposit/withdraw round trip: with a zero commission rate, depositing
/// `d` into an empty vault and then withdrawing without a cap hands
/// exactly `d` to the Principal, nothing to the Manager, and resets the
/// checkpoint to zero.
pub proof fn lemma_deposit_withdraw_round_trip(
    s: StateView,
    bals: Seq<(AssetView, u128)>,
    d: u128,
)
    requires
        s.base_investment == 0,
        total_of(bals) == d,
    ensures
        ({
            let funded = deposit_spec(s, s.funder, seq![CoinView { denom: base_denom(), amount: d }]);
            funded matches Ok(s1) && s1.base_investment == d && {
                let outcome = allocate_spec(bals, s1.base_investment, 0, None, true);
                outcome matches Ok(av) && paid_to(av.transfers, Role::Principal) == d && paid_to(
                    av.transfers,
                    Role::Manager,
                ) == 0 && av.new_base_investment == 0
            }
        }),
{
    let funds = seq![CoinView { denom: base_denom(), amount: d }];
    assert(funds.len() == 1);
    assert(funds[0].denom == base_denom());
    assert(commission_of(total_of(bals) - d, 0) == 0) by {
        vstd::arithmetic::div_mod::lemma_div_of0(100);
    }
    lemma_waterfall(bals, 0 as u128, d);
}

/// The cap is honored: when the Principal asks for a bounded amount,
/// the Principal's realized transfers never sum to more than it.
pub proof fn lemma_principal_cap(
    bals: Seq<(AssetView, u128)>,
    base_investment: u128,
    commission_rate: u8,
    requested: u128,
)
    requires
        commission_rate <= 100,
        total_of(bals) <= u128::MAX,
    ensures
        allocate_spec(bals, base_investment, commission_rate, Some(requested), true) matches Ok(av)
            ==> paid_to(av.transfers, Role::Principal) <= requested,
{
    let t = total_of(bals);
    lemma_total_of_nonneg(bals);
    if base_investment <= t {
        let c_due = commission_of(t - base_investment, commission_rate);
        lemma_commission_bounds(t - base_investment, commission_rate);
        lemma_waterfall(bals, c_due as u128, requested);
    }
}

/// Lock veto: once the Principal has locked, a Manager-initiated
/// configuration change fails as locked, while a Manager-initiated
/// withdrawal still goes through — the veto freezes configuration, not
/// payouts. (The withdrawal needs the usual accounting precondition
/// that the checkpoint does not exceed the holdings.)
pub proof fn lemma_lock_veto(
    s: StateView,
    whitelist: Option<Seq<Seq<char>>>,
    assets: Option<Seq<AssetView>>,
    commission: Option<u8>,
    user: Option<Seq<char>>,
    bals: Seq<(AssetView, u128)>,
    amount: Option<u128>,
)
    requires
        s.wf(),
        s.funder_lock,
        s.base_investment <= total_of(bals),
    ensures
        update_state_spec(s, s.trader, whitelist, assets, commission, user, bals) == Err::<
            StateView,
            ContractError,
        >(ContractError::Locked),
        withdraw_spec(s, s.trader, bals, amount) is Ok,
{
}

/// Whitelist enforcement: a Manager-directed relay to a destination
/// outside the whitelist fails as not whitelisted, in both the native
/// and the token form, so no instruction is ever built for it.
pub proof fn lemma_whitelist_enforced(
    s: StateView,
    address: Seq<char>,
    funds: Option<Seq<CoinView>>,
    payload: Option<Seq<u8>>,
    token_addr: Seq<char>,
    amount: u128,
)
    requires
        !s.whitelisted(address),
    ensures
        send_native_spec(s, s.trader, address, funds, payload) == Err::<
            crate::instructions::InstructionView,
            ContractError,
        >(ContractError::NotWhitelisted),
        send_cw20_spec(s, s.trader, address, token_addr, amount, payload) == Err::<
            crate::instructions::InstructionView,
            ContractError,
        >(ContractError::NotWhitelisted),
{
}

} // verus!
