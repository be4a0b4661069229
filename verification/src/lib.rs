//! An escrow-style fund-management engine mediating between a Manager
//! (who trades pooled assets and earns a performance commission) and a
//! Principal (who supplies capital and is entitled to principal plus
//! growth net of commission).
//!
//! The engine itself is pure: every operation maps the current vault
//! record and the host-supplied inputs (caller identity, attached coins,
//! a point-in-time balance snapshot) to a new vault record and a list of
//! outbound transfer instructions. The host is responsible for holding
//! balances, executing instructions, and persisting the record.

use vstd::prelude::*;

mod allocator;
mod contract;
mod error;
mod instructions;
mod laws;
mod msg;
mod state;

pub use crate::allocator::{
    allocate, allocate_spec, balances_view, commission_of, lemma_paid_to_concat,
    lemma_paid_to_single, lemma_total_of_nonneg, lemma_waterfall, lemma_waterfall_untouched,
    paid_to, sum_balances, total_of, transfers_view, waterfall, Allocation, AllocationView, Role,
    WaterfallView,
};
pub use crate::contract::{
    apply_config, base_denom, deposit, deposit_accepted, deposit_spec, execute, execute_spec,
    instantiate, instantiate_spec, instruction_result_view, opt_addr_view, opt_addrs_view,
    opt_assets_view, opt_bytes_view, opt_coins_view, outcome_result_view, query_state, send_cw20,
    send_cw20_spec, send_native, send_native_spec, state_result_view, toggle_lock,
    toggle_lock_spec, update_owner_withdrawal, update_owner_withdrawal_spec, update_state,
    update_state_spec, withdraw, withdraw_spec,
};
pub use crate::laws::{
    lemma_commission_bounds, lemma_commission_priority, lemma_deposit_withdraw_round_trip,
    lemma_lock_veto, lemma_new_base_within_remaining, lemma_principal_cap,
    lemma_whitelist_enforced, lemma_withdraw_idempotent,
};
pub use crate::msg::{ConfigItem, ExecuteMsg, InstantiateMsg, QueryMsg, StateResponse};
pub use crate::error::ContractError;
pub use crate::instructions::{
    build_withdraw_instructions, instructions_view, native_coins_for, role_address,
    token_instructions, withdraw_instructions, Instruction, InstructionView,
};
pub use crate::state::{Asset, AssetView, Coin, CoinView, State, StateView};
pub use crate::state::{addrs_view, assets_view, coins_view};

verus! {

/// Commission floor: no configuration path may set the Manager's
/// commission rate below this percentage.
pub const MINIMUM_COMMISSION: u8 = 20;

} // verus!
