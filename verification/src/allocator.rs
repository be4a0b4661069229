use vstd::prelude::*;

use crate::error::ContractError;
use crate::state::{Asset, AssetView};

verus! {

/// Destination role of one allocated transfer.
#[derive(Clone, Copy, Debug, PartialEq, Eq, Structural)]
pub enum Role {
    Manager,
    Principal,
}

/// View of a balance snapshot: the assets the host could query,
/// in waterfall priority order, each with its held amount.
pub open spec fn balances_view(v: Seq<(Asset, u128)>) -> Seq<(AssetView, u128)> {
    v.map_values(|b: (Asset, u128)| (b.0@, b.1))
}

/// View of an allocated transfer list.
pub open spec fn transfers_view(v: Seq<(Role, Asset, u128)>) -> Seq<(Role, AssetView, u128)> {
    v.map_values(|t: (Role, Asset, u128)| (t.0, t.1@, t.2))
}

/// Total held amount of a balance snapshot (mathematical; never overflows).
pub open spec fn total_of(bals: Seq<(AssetView, u128)>) -> int
    decreases bals.len(),
{
    if bals.len() == 0 {
        0
    } else {
        bals.first().1 + total_of(bals.drop_first())
    }
}

/// The smaller of two amounts.
pub open spec fn min_amount(a: u128, b: u128) -> u128 {
    if a <= b {
        a
    } else {
        b
    }
}

/// Outcome of the waterfall sweep itself, before any accounting around it:
/// the emitted transfers in order, what remains on each asset, and how much
/// of each claim could not be covered.
pub struct WaterfallView {
    /// Allocations with positive amounts, in emission order: assets are
    /// visited in priority order, and on each asset the Manager's claim
    /// is served before the Principal's.
    pub transfers: Seq<(Role, AssetView, u128)>,
    /// Per-asset balances once the allocated amounts are taken out,
    /// aligned with the input snapshot.
    pub leftover: Seq<(AssetView, u128)>,
    /// The part of the Manager's claim no asset was left to cover.
    pub commission_left: u128,
    /// The part of the Principal's claim no asset was left to cover.
    pub principal_left: u128,
}

/// The waterfall sweep: walk the snapshot in order; on each asset first
/// serve the Manager's remaining claim, then the Principal's remaining
/// claim from what is left of that asset. Zero allocations are not emitted.
pub open spec fn waterfall(bals: Seq<(AssetView, u128)>, c_rem: u128, p_rem: u128) -> WaterfallView
    decreases bals.len(),
{
    if bals.len() == 0 {
        WaterfallView {
            transfers: Seq::empty(),
            leftover: Seq::empty(),
            commission_left: c_rem,
            principal_left: p_rem,
        }
    } else {
        let asset = bals.first().0;
        let amt = bals.first().1;
        let to_mgr = min_amount(c_rem, amt);
        let after_mgr = (amt - to_mgr) as u128;
        let to_prin = min_amount(p_rem, after_mgr);
        let rest = waterfall(bals.drop_first(), (c_rem - to_mgr) as u128, (p_rem - to_prin) as u128);
        let here = (if to_mgr > 0 {
            seq![(Role::Manager, asset, to_mgr)]
        } else {
            Seq::empty()
        }) + (if to_prin > 0 {
            seq![(Role::Principal, asset, to_prin)]
        } else {
            Seq::empty()
        });
        WaterfallView {
            transfers: here + rest.transfers,
            leftover: seq![(asset, (after_mgr - to_prin) as u128)] + rest.leftover,
            commission_left: rest.commission_left,
            principal_left: rest.principal_left,
        }
    }
}

/// Sum of the amounts a transfer list sends to `role`.
pub open spec fn paid_to(transfers: Seq<(Role, AssetView, u128)>, role: Role) -> int
    decreases transfers.len(),
{
    if transfers.len() == 0 {
        0
    } else {
        (if transfers.first().0 == role {
            transfers.first().2 as int
        } else {
            0
        }) + paid_to(transfers.drop_first(), role)
    }
}

/// A snapshot's total is never negative.
pub proof fn lemma_total_of_nonneg(bals: Seq<(AssetView, u128)>)
    ensures
        total_of(bals) >= 0,
    decreases bals.len(),
{
    if bals.len() > 0 {
        lemma_total_of_nonneg(bals.drop_first());
    }
}

/// `paid_to` distributes over concatenation.
pub proof fn lemma_paid_to_concat(a: Seq<(Role, AssetView, u128)>, b: Seq<(Role, AssetView, u128)>, role: Role)
    ensures
        paid_to(a + b, role) == paid_to(a, role) + paid_to(b, role),
    decreases a.len(),
{
    if a.len() == 0 {
        assert(a + b =~= b);
    } else {
        assert((a + b).drop_first() =~= a.drop_first() + b);
        lemma_paid_to_concat(a.drop_first(), b, role);
    }
}

/// `paid_to` of a single transfer.
pub proof fn lemma_paid_to_single(t: (Role, AssetView, u128), role: Role)
    ensures
        paid_to(seq![t], role) == if t.0 == role {
            t.2 as int
        } else {
            0
        },
{
    let s = seq![t];
    assert(s.len() == 1);
    assert(s.first() == t);
    assert(s.drop_first() =~= Seq::<(Role, AssetView, u128)>::empty());
    assert(paid_to(Seq::<(Role, AssetView, u128)>::empty(), role) == 0);
    assert(paid_to(s, role) == (if t.0 == role {
        t.2 as int
    } else {
        0
    }) + paid_to(s.drop_first(), role));
}

/// What the waterfall sweep pays and what it leaves behind.
///
/// The Manager's claim has absolute priority: it is paid in full whenever
/// the snapshot covers it, and exhausts the snapshot otherwise. The
/// Principal's claim is paid from what the Manager's claim leaves.
/// The leftover snapshot keeps the assets in place and holds exactly the
/// input total minus both payments.
pub proof fn lemma_waterfall(bals: Seq<(AssetView, u128)>, c_rem: u128, p_rem: u128)
    ensures
        ({
            let w = waterfall(bals, c_rem, p_rem);
            let t = total_of(bals);
            let c_paid = if c_rem <= t { c_rem as int } else { t };
            let p_paid = if p_rem <= t - c_paid { p_rem as int } else { t - c_paid };
            &&& w.commission_left == c_rem - c_paid
            &&& w.principal_left == p_rem - p_paid
            &&& paid_to(w.transfers, Role::Manager) == c_paid
            &&& paid_to(w.transfers, Role::Principal) == p_paid
            &&& total_of(w.leftover) == t - c_paid - p_paid
            &&& w.leftover.len() == bals.len()
            &&& forall|i: int|
                0 <= i < bals.len() ==> #[trigger] w.leftover[i].0 == bals[i].0 && w.leftover[i].1 <= bals[i].1
            &&& forall|i: int| 0 <= i < w.transfers.len() ==> #[trigger] w.transfers[i].2 > 0
        }),
    decreases bals.len(),
{
    lemma_total_of_nonneg(bals);
    if bals.len() == 0 {
    } else {
        let asset = bals.first().0;
        let amt = bals.first().1;
        let to_mgr = min_amount(c_rem, amt);
        let after_mgr = (amt - to_mgr) as u128;
        let to_prin = min_amount(p_rem, after_mgr);
        let c_next = (c_rem - to_mgr) as u128;
        let p_next = (p_rem - to_prin) as u128;
        let tail = bals.drop_first();
        lemma_total_of_nonneg(tail);
        lemma_waterfall(tail, c_next, p_next);
        let rest = waterfall(tail, c_next, p_next);
        let here = (if to_mgr > 0 {
            seq![(Role::Manager, asset, to_mgr)]
        } else {
            Seq::<(Role, AssetView, u128)>::empty()
        }) + (if to_prin > 0 {
            seq![(Role::Principal, asset, to_prin)]
        } else {
            Seq::<(Role, AssetView, u128)>::empty()
        });
        let m_seq = if to_mgr > 0 {
            seq![(Role::Manager, asset, to_mgr)]
        } else {
            Seq::<(Role, AssetView, u128)>::empty()
        };
        let p_seq = if to_prin > 0 {
            seq![(Role::Principal, asset, to_prin)]
        } else {
            Seq::<(Role, AssetView, u128)>::empty()
        };
        lemma_paid_to_concat(here, rest.transfers, Role::Manager);
        lemma_paid_to_concat(here, rest.transfers, Role::Principal);
        lemma_paid_to_concat(m_seq, p_seq, Role::Manager);
        lemma_paid_to_concat(m_seq, p_seq, Role::Principal);
        if to_mgr > 0 {
            lemma_paid_to_single((Role::Manager, asset, to_mgr), Role::Manager);
            lemma_paid_to_single((Role::Manager, asset, to_mgr), Role::Principal);
        }
        if to_prin > 0 {
            lemma_paid_to_single((Role::Principal, asset, to_prin), Role::Manager);
            lemma_paid_to_single((Role::Principal, asset, to_prin), Role::Principal);
        }
        assert(paid_to(here, Role::Manager) == to_mgr);
        assert(paid_to(here, Role::Principal) == to_prin);
        let w = waterfall(bals, c_rem, p_rem);
        assert(w.leftover.first() == (asset, (after_mgr - to_prin) as u128));
        assert(w.leftover.drop_first() =~= rest.leftover);
        assert(total_of(w.leftover) == (after_mgr - to_prin) + total_of(rest.leftover));
        assert(forall|i: int|
            1 <= i < w.leftover.len() ==> w.leftover[i] == #[trigger] rest.leftover[i - 1]);
        assert(forall|i: int|
            here.len() <= i < w.transfers.len() ==> w.transfers[i] == #[trigger] rest.transfers[i - here.len()]);
    }
}

/// A sweep with nothing left to claim emits nothing and touches nothing.
pub proof fn lemma_waterfall_untouched(bals: Seq<(AssetView, u128)>)
    ensures
        waterfall(bals, 0, 0).transfers =~= Seq::<(Role, AssetView, u128)>::empty(),
        waterfall(bals, 0, 0).leftover =~= bals,
        waterfall(bals, 0, 0).commission_left == 0,
        waterfall(bals, 0, 0).principal_left == 0,
    decreases bals.len(),
{
    if bals.len() > 0 {
        lemma_waterfall_untouched(bals.drop_first());
        assert(waterfall(bals, 0, 0).leftover =~= seq![bals.first()] + bals.drop_first());
        assert(seq![bals.first()] + bals.drop_first() =~= bals);
    }
}

/// The Manager's commission on `profit` at an integer percentage `rate`:
/// multiplication first, then truncating division.
pub open spec fn commission_of(profit: int, rate: u8) -> int {
    profit * rate / 100
}

/// Spec-level outcome of the allocator.
pub struct AllocationView {
    /// The next accounting checkpoint.
    pub new_base_investment: int,
    /// The emitted transfers, in order.
    pub transfers: Seq<(Role, AssetView, u128)>,
    /// Per-asset balances the sweep leaves behind.
    pub leftover: Seq<(AssetView, u128)>,
}

/// What the allocator returns on a given snapshot.
///
/// Profit is measured against the checkpoint and fails fast (rather than
/// wrapping) when the checkpoint exceeds the holdings. The Manager's
/// commission is carved out of profit; the Principal's target is the
/// requested amount, or everything after commission when no amount was
/// given; a caller who is not the Principal triggers the commission leg
/// alone. The new checkpoint is the total minus the commission due and
/// minus what the Principal actually received.
pub open spec fn allocate_spec(
    bals: Seq<(AssetView, u128)>,
    base_investment: u128,
    commission_rate: u8,
    requested_principal_amount: Option<u128>,
    requester_is_principal: bool,
) -> Result<AllocationView, ContractError> {
    let t = total_of(bals);
    if base_investment > t {
        Err(ContractError::AccountingUnderflow)
    } else {
        let c_due = commission_of(t - base_investment, commission_rate);
        let p_target: int = if requester_is_principal {
            match requested_principal_amount {
                Some(a) => a as int,
                None => t - c_due,
            }
        } else {
            0
        };
        let w = waterfall(bals, c_due as u128, p_target as u128);
        Ok(AllocationView {
            new_base_investment: t - c_due - (p_target - w.principal_left),
            transfers: w.transfers,
            leftover: w.leftover,
        })
    }
}

/// Executable outcome of the allocator.
pub struct Allocation {
    /// The next accounting checkpoint.
    pub new_base_investment: u128,
    /// The emitted transfers, in order.
    pub transfers: Vec<(Role, Asset, u128)>,
}

/// Sums a balance snapshot.
pub fn sum_balances(bals: &Vec<(Asset, u128)>) -> (total: u128)
    requires
        total_of(balances_view(bals@)) <= u128::MAX,
    ensures
        total as int == total_of(balances_view(bals@)),
{
    let ghost bv = balances_view(bals@);
    proof {
        assert(bv.skip(0) =~= bv);
    }
    let mut total: u128 = 0;
    let mut i: usize = 0;
    while i < bals.len()
        invariant
            i <= bals.len(),
            bv == balances_view(bals@),
            bv.len() == bals@.len(),
            total_of(bv) <= u128::MAX,
            total + total_of(bv.skip(i as int)) == total_of(bv),
        decreases bals.len() - i,
    {
        proof {
            assert(bv.skip(i as int).len() > 0);
            assert(bv.skip(i as int).first() == bv[i as int]);
            assert(bv.skip(i as int).drop_first() =~= bv.skip(i as int + 1));
            lemma_total_of_nonneg(bv.skip(i as int + 1));
            assert(bv[i as int].1 == bals@[i as int].1);
        }
        total = total + bals[i].1;
        i = i + 1;
    }
    proof {
        assert(bv.skip(bals@.len() as int) =~= Seq::<(AssetView, u128)>::empty());
    }
    total
}

/// The commission amount: `profit * rate / 100` with truncating division,
/// computed without widening past 128 bits.
fn commission_part(profit: u128, rate: u8) -> (c: u128)
    requires
        rate <= 100,
    ensures
        c as int == commission_of(profit as int, rate),
        c <= profit,
{
    let q: u128 = profit / 100;
    let r: u128 = profit % 100;
    let rr: u128 = rate as u128;
    proof {
        vstd::arithmetic::div_mod::lemma_fundamental_div_mod(profit as int, 100);
        assert(q * rr <= q * 100) by (nonlinear_arith)
            requires
                rr <= 100,
                q >= 0,
        ;
        assert(q * 100 + r == profit);
        assert(r * rr <= r * 100) by (nonlinear_arith)
            requires
                rr <= 100,
                r >= 0,
        ;
        vstd::arithmetic::div_mod::lemma_div_is_ordered(r as int * rr, r as int * 100, 100);
        vstd::arithmetic::div_mod::lemma_div_multiples_vanish(r as int, 100);
        assert(r * 100 / 100 == r);
        // q * rr + (r * rr) / 100 is exactly profit * rr / 100
        assert(profit * rr == 100 * (q * rr) + r * rr) by (nonlinear_arith)
            requires
                profit == q * 100 + r,
        ;
        vstd::arithmetic::div_mod::lemma_hoist_over_denominator(r as int * rr, q as int * rr, 100);
        assert(r * rr / 100 + q * rr == (r * rr + (q * rr) * 100) / 100);
        assert(profit as int * rr == commission_of(profit as int, rate) * 100 + (profit as int * rr) % 100) by {
            vstd::arithmetic::div_mod::lemma_fundamental_div_mod(profit as int * rr, 100);
        }
    }
    q * rr + (r * rr) / 100
}

/// The Waterfall Allocator.
///
/// Given a balance snapshot in priority order, the accounting checkpoint,
/// the commission rate, an optional cap on the Principal's withdrawal and
/// the caller's role, it computes the new checkpoint and the ordered
/// transfers, exactly as [`allocate_spec`] states.
pub fn allocate(
    bals: &Vec<(Asset, u128)>,
    base_investment: u128,
    commission_rate: u8,
    requested_principal_amount: Option<u128>,
    requester_is_principal: bool,
) -> (r: Result<Allocation, ContractError>)
    requires
        total_of(balances_view(bals@)) <= u128::MAX,
        commission_rate <= 100,
    ensures
        ({
            let s = allocate_spec(
                balances_view(bals@),
                base_investment,
                commission_rate,
                requested_principal_amount,
                requester_is_principal,
            );
            match r {
                Ok(a) => s matches Ok(av) && av.new_base_investment == a.new_base_investment as int
                    && av.transfers == transfers_view(a.transfers@),
                Err(e) => s matches Err(se) && se == e,
            }
        }),
{
    let ghost bv = balances_view(bals@);
    let total = sum_balances(bals);
    if base_investment > total {
        return Err(ContractError::AccountingUnderflow);
    }
    let profit = total - base_investment;
    let c_due = commission_part(profit, commission_rate);
    let p_target: u128 = if requester_is_principal {
        match requested_principal_amount {
            Some(a) => a,
            None => total - c_due,
        }
    } else {
        0
    };

    let mut transfers: Vec<(Role, Asset, u128)> = Vec::new();
    proof {
        assert(bv.skip(0) =~= bv);
        assert(transfers_view(transfers@) =~= Seq::<(Role, AssetView, u128)>::empty());
        assert(Seq::<(Role, AssetView, u128)>::empty() + waterfall(bv, c_due, p_target).transfers
            =~= waterfall(bv, c_due, p_target).transfers);
    }
    let mut c_rem = c_due;
    let mut p_rem = p_target;
    let mut i: usize = 0;
    while i < bals.len() && (c_rem > 0 || p_rem > 0)
        invariant
            i <= bals.len(),
            bv == balances_view(bals@),
            bv.len() == bals@.len(),
            waterfall(bv, c_due, p_target).transfers == transfers_view(transfers@)
                + waterfall(bv.skip(i as int), c_rem, p_rem).transfers,
            waterfall(bv, c_due, p_target).commission_left == waterfall(
                bv.skip(i as int),
                c_rem,
                p_rem,
            ).commission_left,
            waterfall(bv, c_due, p_target).principal_left == waterfall(
                bv.skip(i as int),
                c_rem,
                p_rem,
            ).principal_left,
        decreases bals.len() - i,
    {
        proof {
            assert(bv.skip(i as int).len() > 0);
            assert(bv.skip(i as int).first() == bv[i as int]);
            assert(bv.skip(i as int).drop_first() =~= bv.skip(i as int + 1));
            assert(bv[i as int] == (bals@[i as int].0@, bals@[i as int].1));
        }
        let ghost pre_suffix = waterfall(bv.skip(i as int), c_rem, p_rem);
        let ghost transfers_pre = transfers@;
        let amt = bals[i].1;
        let to_mgr = if c_rem <= amt {
            c_rem
        } else {
            amt
        };
        if to_mgr > 0 {
            let a = bals[i].0.clone();
            transfers.push((Role::Manager, a, to_mgr));
        }
        let after_mgr = amt - to_mgr;
        let to_prin = if p_rem <= after_mgr {
            p_rem
        } else {
            after_mgr
        };
        if to_prin > 0 {
            let a = bals[i].0.clone();
            transfers.push((Role::Principal, a, to_prin));
        }
        c_rem = c_rem - to_mgr;
        p_rem = p_rem - to_prin;
        proof {
            let here = (if to_mgr > 0 {
                seq![(Role::Manager, bv[i as int].0, to_mgr)]
            } else {
                Seq::<(Role, AssetView, u128)>::empty()
            }) + (if to_prin > 0 {
                seq![(Role::Principal, bv[i as int].0, to_prin)]
            } else {
                Seq::<(Role, AssetView, u128)>::empty()
            });
            assert(pre_suffix.transfers =~= here + waterfall(bv.skip(i as int + 1), c_rem, p_rem).transfers);
            assert(transfers_view(transfers@) =~= transfers_view(transfers_pre) + here);
            assert(transfers_view(transfers_pre) + here + waterfall(
                bv.skip(i as int + 1),
                c_rem,
                p_rem,
            ).transfers =~= transfers_view(transfers_pre) + (here + waterfall(
                bv.skip(i as int + 1),
                c_rem,
                p_rem,
            ).transfers));
        }
        i = i + 1;
    }
    proof {
        if i == bals.len() {
            assert(bv.skip(i as int) =~= Seq::<(AssetView, u128)>::empty());
        } else {
            lemma_waterfall_untouched(bv.skip(i as int));
        }
        assert(waterfall(bv, c_due, p_target).transfers =~= transfers_view(transfers@));
        assert(waterfall(bv, c_due, p_target).commission_left == c_rem);
        assert(waterfall(bv, c_due, p_target).principal_left == p_rem);
        lemma_waterfall(bv, c_due, p_target);
        lemma_total_of_nonneg(bv);
    }
    let p_paid = p_target - p_rem;
    let new_base = total - c_due - p_paid;
    Ok(Allocation { new_base_investment: new_base, transfers })
}

} // verus!
