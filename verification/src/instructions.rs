use vstd::prelude::*;

use crate::allocator::{transfers_view, Role};
use crate::state::{Asset, AssetView, Coin, CoinView};

verus! {

/// One outbound instruction for the host ledger to execute.
///
/// Native coins bound for one destination are batched into a single
/// instruction; token moves are one instruction per token, since each
/// token contract is an independent destination.
pub enum Instruction {
    /// Send native coins to a wallet.
    NativeSend { to: String, coins: Vec<Coin> },
    /// Invoke a contract, attaching native coins and an opaque payload.
    NativeExec { contract: String, coins: Vec<Coin>, payload: Vec<u8> },
    /// Move `amount` of the token administered by `token` to a wallet.
    TokenTransfer { token: String, to: String, amount: u128 },
    /// Move `amount` of the token to a contract, with an opaque payload.
    TokenSend { token: String, to: String, amount: u128, payload: Vec<u8> },
}

/// Mathematical view of an [`Instruction`].
pub enum InstructionView {
    NativeSend { to: Seq<char>, coins: Seq<CoinView> },
    NativeExec { contract: Seq<char>, coins: Seq<CoinView>, payload: Seq<u8> },
    TokenTransfer { token: Seq<char>, to: Seq<char>, amount: u128 },
    TokenSend { token: Seq<char>, to: Seq<char>, amount: u128, payload: Seq<u8> },
}

impl View for Instruction {
    type V = InstructionView;

    open spec fn view(&self) -> InstructionView {
        match self {
            Instruction::NativeSend { to, coins } => InstructionView::NativeSend {
                to: to@,
                coins: crate::state::coins_view(coins@),
            },
            Instruction::NativeExec { contract, coins, payload } => InstructionView::NativeExec {
                contract: contract@,
                coins: crate::state::coins_view(coins@),
                payload: payload@,
            },
            Instruction::TokenTransfer { token, to, amount } => InstructionView::TokenTransfer {
                token: token@,
                to: to@,
                amount: *amount,
            },
            Instruction::TokenSend { token, to, amount, payload } => InstructionView::TokenSend {
                token: token@,
                to: to@,
                amount: *amount,
                payload: payload@,
            },
        }
    }
}

/// View of an instruction list.
pub open spec fn instructions_view(v: Seq<Instruction>) -> Seq<InstructionView> {
    v.map_values(|i: Instruction| i@)
}

/// The wallet a role's share is sent to.
pub open spec fn role_address(role: Role, manager_address: Seq<char>, principal_address: Seq<char>) -> Seq<char> {
    match role {
        Role::Manager => manager_address,
        Role::Principal => principal_address,
    }
}

/// The token instructions of an allocated transfer list, in order:
/// one per token transfer, none for native transfers.
pub open spec fn token_instructions(
    transfers: Seq<(Role, AssetView, u128)>,
    manager_address: Seq<char>,
    principal_address: Seq<char>,
) -> Seq<InstructionView>
    decreases transfers.len(),
{
    if transfers.len() == 0 {
        Seq::empty()
    } else {
        let head = match transfers.first().1 {
            AssetView::Token(token) => seq![
                InstructionView::TokenTransfer {
                    token,
                    to: role_address(transfers.first().0, manager_address, principal_address),
                    amount: transfers.first().2,
                },
            ],
            AssetView::Native(_) => Seq::<InstructionView>::empty(),
        };
        head + token_instructions(transfers.drop_first(), manager_address, principal_address)
    }
}

/// The native coins an allocated transfer list sends to `role`, in order.
pub open spec fn native_coins_for(transfers: Seq<(Role, AssetView, u128)>, role: Role) -> Seq<CoinView>
    decreases transfers.len(),
{
    if transfers.len() == 0 {
        Seq::empty()
    } else {
        let head = if transfers.first().0 == role {
            match transfers.first().1 {
                AssetView::Native(denom) => seq![CoinView { denom, amount: transfers.first().2 }],
                AssetView::Token(_) => Seq::<CoinView>::empty(),
            }
        } else {
            Seq::<CoinView>::empty()
        };
        head + native_coins_for(transfers.drop_first(), role)
    }
}

/// The full instruction list of a withdrawal: the token instructions in
/// allocation order, then the Manager's native batch, then the
/// Principal's native batch; empty batches are not emitted.
pub open spec fn withdraw_instructions(
    transfers: Seq<(Role, AssetView, u128)>,
    manager_address: Seq<char>,
    principal_address: Seq<char>,
) -> Seq<InstructionView> {
    let manager_coins = native_coins_for(transfers, Role::Manager);
    let principal_coins = native_coins_for(transfers, Role::Principal);
    token_instructions(transfers, manager_address, principal_address) + (if manager_coins.len() > 0 {
        seq![InstructionView::NativeSend { to: manager_address, coins: manager_coins }]
    } else {
        Seq::<InstructionView>::empty()
    }) + (if principal_coins.len() > 0 {
        seq![InstructionView::NativeSend { to: principal_address, coins: principal_coins }]
    } else {
        Seq::<InstructionView>::empty()
    })
}

/// Turns an allocated transfer list into host instructions, exactly as
/// [`withdraw_instructions`] states.
pub fn build_withdraw_instructions(
    transfers: &Vec<(Role, Asset, u128)>,
    manager_address: &String,
    principal_address: &String,
) -> (r: Vec<Instruction>)
    ensures
        instructions_view(r@) == withdraw_instructions(
            transfers_view(transfers@),
            manager_address@,
            principal_address@,
        ),
{
    let ghost tv = transfers_view(transfers@);
    let mut instrs: Vec<Instruction> = Vec::new();
    let mut manager_coins: Vec<Coin> = Vec::new();
    let mut principal_coins: Vec<Coin> = Vec::new();
    proof {
        assert(tv.skip(0) =~= tv);
        assert(instructions_view(instrs@) =~= Seq::<InstructionView>::empty());
        assert(crate::state::coins_view(manager_coins@) =~= Seq::<CoinView>::empty());
        assert(crate::state::coins_view(principal_coins@) =~= Seq::<CoinView>::empty());
        assert(Seq::<InstructionView>::empty() + token_instructions(
            tv,
            manager_address@,
            principal_address@,
        ) =~= token_instructions(tv, manager_address@, principal_address@));
        assert(Seq::<CoinView>::empty() + native_coins_for(tv, Role::Manager) =~= native_coins_for(
            tv,
            Role::Manager,
        ));
        assert(Seq::<CoinView>::empty() + native_coins_for(tv, Role::Principal) =~= native_coins_for(
            tv,
            Role::Principal,
        ));
    }
    let mut i: usize = 0;
    while i < transfers.len()
        invariant
            i <= transfers.len(),
            tv == transfers_view(transfers@),
            tv.len() == transfers@.len(),
            token_instructions(tv, manager_address@, principal_address@) == instructions_view(
                instrs@,
            ) + token_instructions(tv.skip(i as int), manager_address@, principal_address@),
            native_coins_for(tv, Role::Manager) == crate::state::coins_view(manager_coins@)
                + native_coins_for(tv.skip(i as int), Role::Manager),
            native_coins_for(tv, Role::Principal) == crate::state::coins_view(principal_coins@)
                + native_coins_for(tv.skip(i as int), Role::Principal),
        decreases transfers.len() - i,
    {
        proof {
            assert(tv.skip(i as int).len() > 0);
            assert(tv.skip(i as int).first() == tv[i as int]);
            assert(tv.skip(i as int).drop_first() =~= tv.skip(i as int + 1));
            assert(tv[i as int] == (transfers@[i as int].0, transfers@[i as int].1@, transfers@[i as int].2));
        }
        let ghost instrs_pre = instrs@;
        let ghost manager_pre = manager_coins@;
        let ghost principal_pre = principal_coins@;
        let role = transfers[i].0;
        let amount = transfers[i].2;
        match &transfers[i].1 {
            Asset::Token(token) => {
                let to = match role {
                    Role::Manager => manager_address.clone(),
                    Role::Principal => principal_address.clone(),
                };
                instrs.push(Instruction::TokenTransfer { token: token.clone(), to, amount });
            },
            Asset::Native(denom) => {
                match role {
                    Role::Manager => manager_coins.push(Coin { denom: denom.clone(), amount }),
                    Role::Principal => principal_coins.push(
                        Coin { denom: denom.clone(), amount },
                    ),
                }
            },
        }
        proof {
            assert(instructions_view(instrs@) =~= instructions_view(instrs_pre) + instructions_view(
                instrs@.skip(instrs_pre.len() as int),
            ));
            assert(crate::state::coins_view(manager_coins@) =~= crate::state::coins_view(manager_pre)
                + crate::state::coins_view(manager_coins@.skip(manager_pre.len() as int)));
            assert(crate::state::coins_view(principal_coins@) =~= crate::state::coins_view(
                principal_pre,
            ) + crate::state::coins_view(principal_coins@.skip(principal_pre.len() as int)));
            assert(token_instructions(tv, manager_address@, principal_address@)
                =~= instructions_view(instrs@) + token_instructions(
                tv.skip(i as int + 1),
                manager_address@,
                principal_address@,
            ));
            assert(native_coins_for(tv, Role::Manager) =~= crate::state::coins_view(manager_coins@)
                + native_coins_for(tv.skip(i as int + 1), Role::Manager));
            assert(native_coins_for(tv, Role::Principal) =~= crate::state::coins_view(
                principal_coins@,
            ) + native_coins_for(tv.skip(i as int + 1), Role::Principal));
        }
        i = i + 1;
    }
    proof {
        assert(tv.skip(transfers@.len() as int) =~= Seq::<(Role, AssetView, u128)>::empty());
        assert(token_instructions(tv, manager_address@, principal_address@) =~= instructions_view(
            instrs@,
        ));
        assert(native_coins_for(tv, Role::Manager) =~= crate::state::coins_view(manager_coins@));
        assert(native_coins_for(tv, Role::Principal) =~= crate::state::coins_view(principal_coins@));
    }
    let ghost tokens_done = instrs@;
    if manager_coins.len() > 0 {
        let to = manager_address.clone();
        instrs.push(Instruction::NativeSend { to, coins: manager_coins });
    } else {
        proof {
            assert(crate::state::coins_view(manager_coins@).len() == 0);
        }
    }
    let ghost with_manager = instrs@;
    if principal_coins.len() > 0 {
        let to = principal_address.clone();
        instrs.push(Instruction::NativeSend { to, coins: principal_coins });
    } else {
        proof {
            assert(crate::state::coins_view(principal_coins@).len() == 0);
        }
    }
    proof {
        assert(instructions_view(instrs@) =~= withdraw_instructions(
            tv,
            manager_address@,
            principal_address@,
        ));
    }
    instrs
}

} // verus!
