//! The contract ledger: signed contracts and their settlement.
//!
//! When the train stops, every signed contract whose expiry stop number equals
//! the current stop number is evaluated, in signing order, and removed from
//! the ledger whatever the outcome. A contract is fulfilled when the required
//! item's count summed across all inventories covers the required amount; the
//! amount is then deducted greedily left to right (each inventory gives at
//! most what it holds) and the reward is credited to the first inventory. A
//! contract that cannot be covered fails and moves nothing.

use vstd::prelude::*;

use crate::contracts::Contract;
use crate::items::{invs_wf, item_index, sat_add, views, Inventory, Item, ITEM_KINDS};

verus! {

/// The insertion-ordered collection of signed contracts.
pub struct ActiveContracts(pub Vec<Contract>);

/// Count of item `idx` summed over the first `n` inventories.
pub open spec fn total_prefix(vs: Seq<Seq<u64>>, idx: int, n: int) -> int
    decreases n,
{
    if n <= 0 {
        0
    } else {
        total_prefix(vs, idx, n - 1) + vs[n - 1][idx]
    }
}

/// Count of item `idx` summed over the whole row.
pub open spec fn total_item(vs: Seq<Seq<u64>>, idx: int) -> int {
    total_prefix(vs, idx, vs.len() as int)
}

/// What is still owed of a demand of `amount` after the first `i` inventories
/// gave what they could.
pub open spec fn owed_after(vs: Seq<Seq<u64>>, idx: int, amount: int, i: int) -> int {
    let owed = amount - total_prefix(vs, idx, i);
    if owed < 0 {
        0
    } else {
        owed
    }
}

/// What inventory `i` gives to a demand of `amount` served greedily left to
/// right: what is still owed, capped at what it holds.
pub open spec fn take_at(vs: Seq<Seq<u64>>, idx: int, amount: int, i: int) -> int {
    let owed = owed_after(vs, idx, amount, i);
    if vs[i][idx] <= owed {
        vs[i][idx] as int
    } else {
        owed
    }
}

/// The row after a demand of `amount` of item `idx` was served greedily left
/// to right.
pub open spec fn deduct_item(vs: Seq<Seq<u64>>, idx: int, amount: int) -> Seq<Seq<u64>> {
    Seq::new(
        vs.len(),
        |i: int| vs[i].update(idx, (vs[i][idx] - take_at(vs, idx, amount, i)) as u64),
    )
}

/// The row after `amount` of item `idx` was credited to the first inventory;
/// an empty row takes no credit.
pub open spec fn credit_first(vs: Seq<Seq<u64>>, idx: int, amount: u64) -> Seq<Seq<u64>> {
    if vs.len() == 0 {
        vs
    } else {
        vs.update(0, vs[0].update(idx, sat_add(vs[0][idx], amount)))
    }
}

/// The row after one contract was evaluated against it: unchanged when the
/// required total is not covered, else deducted and then rewarded.
pub open spec fn settle_views(vs: Seq<Seq<u64>>, c: Contract) -> Seq<Seq<u64>> {
    let req_idx = item_index(c.required.0);
    if total_item(vs, req_idx) < c.required.1 {
        vs
    } else {
        credit_first(deduct_item(vs, req_idx, c.required.1 as int), item_index(c.reward.0), c.reward.1)
    }
}

/// The row after every contract of `cs` whose expiry equals `n` was evaluated
/// against it, in order.
pub open spec fn evaluate_views(vs: Seq<Seq<u64>>, cs: Seq<Contract>, n: int) -> Seq<Seq<u64>>
    decreases cs.len(),
{
    if cs.len() == 0 {
        vs
    } else {
        let prev = evaluate_views(vs, cs.drop_last(), n);
        if cs.last().stop_number == n {
            settle_views(prev, cs.last())
        } else {
            prev
        }
    }
}

/// The contracts of `cs` that survive an evaluation at stop `n`: exactly
/// those whose expiry is some other stop, in their original order.
pub open spec fn kept_contracts(cs: Seq<Contract>, n: int) -> Seq<Contract>
    decreases cs.len(),
{
    if cs.len() == 0 {
        Seq::<Contract>::empty()
    } else {
        let prev = kept_contracts(cs.drop_last(), n);
        if cs.last().stop_number != n {
            prev.push(cs.last())
        } else {
            prev
        }
    }
}

/// Count of item `item` summed over all inventories of the row.
pub fn total_of(inventories: &Vec<Inventory>, item: Item) -> (total: u128)
    requires
        invs_wf(views(inventories@)),
    ensures
        total == total_item(views(inventories@), item_index(item)),
{
    let n = inventories.len();
    let mut acc: u128 = 0;
    let mut i: usize = 0;
    while i < n
        invariant
            i <= n,
            n == inventories@.len(),
            invs_wf(views(inventories@)),
            acc == total_prefix(views(inventories@), item_index(item), i as int),
            acc <= i * (u64::MAX as int),
        decreases n - i,
    {
        proof {
            assert(views(inventories@)[i as int] == inventories@[i as int]@);
        }
        let held = inventories[i].get(item);
        proof {
            assert(acc + held <= (i + 1) * (u64::MAX as int)) by (nonlinear_arith)
                requires
                    acc <= i * (u64::MAX as int),
                    held <= u64::MAX,
            ;
            assert((i + 1) * (u64::MAX as int) < u128::MAX) by (nonlinear_arith)
                requires
                    i + 1 <= 0x1_0000_0000_0000_0000,
            ;
        }
        acc = acc + held as u128;
        i = i + 1;
    }
    acc
}

/// Evaluates one contract against the row of inventories: deducts the
/// required amount greedily left to right and credits the reward to the first
/// inventory when the required total is covered, else changes nothing. Says
/// whether the contract was fulfilled.
pub fn settle_contract(inventories: &mut Vec<Inventory>, c: &Contract) -> (fulfilled: bool)
    requires
        invs_wf(views(old(inventories)@)),
    ensures
        invs_wf(views(final(inventories)@)),
        final(inventories)@.len() == old(inventories)@.len(),
        views(final(inventories)@) == settle_views(views(old(inventories)@), *c),
        fulfilled <==> total_item(views(old(inventories)@), item_index(c.required.0))
            >= c.required.1,
{
    let ghost vs0 = views(inventories@);
    let required_item = c.required.0;
    let required_amount = c.required.1;
    let ghost idx = item_index(required_item);
    let total = total_of(inventories, required_item);
    if total < required_amount as u128 {
        return false;
    }
    let n = inventories.len();
    let mut remaining: u64 = required_amount;
    let mut i: usize = 0;
    while i < n
        invariant
            i <= n,
            n == inventories@.len(),
            vs0.len() == n,
            invs_wf(vs0),
            idx == item_index(required_item),
            required_amount == c.required.1,
            0 <= idx < ITEM_KINDS,
            remaining == owed_after(vs0, idx, required_amount as int, i as int),
            forall|j: int|
                0 <= j < i ==> views(inventories@)[j] == vs0[j].update(
                    idx,
                    (vs0[j][idx] - take_at(vs0, idx, required_amount as int, j)) as u64,
                ),
            forall|j: int| i <= j < n ==> views(inventories@)[j] == vs0[j],
        decreases n - i,
    {
        let ghost pre = inventories@;
        proof {
            assert(views(pre)[i as int] == pre[i as int]@);
            assert(views(pre)[i as int] == vs0[i as int]);
        }
        let taken = inventories[i].take_upto(required_item, remaining);
        proof {
            assert(total_prefix(vs0, idx, i + 1) == total_prefix(vs0, idx, i as int)
                + vs0[i as int][idx]);
            assert forall|j: int| 0 <= j < n implies views(inventories@)[j] == (if j == i as int {
                pre[i as int]@.update(idx, (vs0[i as int][idx] - taken) as u64)
            } else {
                views(pre)[j]
            }) by {}
        }
        remaining = remaining - taken;
        i = i + 1;
    }
    proof {
        assert(views(inventories@) =~= deduct_item(vs0, idx, required_amount as int));
    }
    if n > 0 {
        let ghost mid = views(inventories@);
        proof {
            assert(mid[0] == inventories@[0]@);
            assert(vs0[0].len() == ITEM_KINDS);
        }
        inventories[0].add(c.reward.0, c.reward.1);
        proof {
            assert(views(inventories@) =~= credit_first(mid, item_index(c.reward.0), c.reward.1));
        }
    }
    true
}

/// Evaluates the ledger at the current stop: every signed contract whose
/// expiry stop number equals `current_stop_number` is settled against the
/// inventories, in signing order, and leaves the ledger whatever the outcome;
/// every other contract stays, in order.
pub fn evaluate_contracts(
    contracts: &mut ActiveContracts,
    inventories: &mut Vec<Inventory>,
    current_stop_number: usize,
)
    requires
        invs_wf(views(old(inventories)@)),
    ensures
        final(contracts).0@ == kept_contracts(old(contracts).0@, current_stop_number as int),
        views(final(inventories)@) == evaluate_views(
            views(old(inventories)@),
            old(contracts).0@,
            current_stop_number as int,
        ),
        invs_wf(views(final(inventories)@)),
        final(inventories)@.len() == old(inventories)@.len(),
{
    let ghost cs0 = contracts.0@;
    let ghost vs0 = views(inventories@);
    let mut kept: Vec<Contract> = Vec::new();
    let n = contracts.0.len();
    let mut i: usize = 0;
    while i < n
        invariant
            i <= n,
            contracts.0@ == cs0,
            n == cs0.len(),
            invs_wf(views(inventories@)),
            inventories@.len() == vs0.len(),
            kept@ == kept_contracts(cs0.take(i as int), current_stop_number as int),
            views(inventories@) == evaluate_views(
                vs0,
                cs0.take(i as int),
                current_stop_number as int,
            ),
        decreases n - i,
    {
        let c = contracts.0[i];
        proof {
            assert(cs0.take(i as int + 1).drop_last() =~= cs0.take(i as int));
            assert(cs0.take(i as int + 1).last() == cs0[i as int]);
        }
        if c.stop_number == current_stop_number {
            let _ = settle_contract(inventories, &c);
        } else {
            kept.push(c);
        }
        i = i + 1;
    }
    proof {
        assert(cs0.take(n as int) =~= cs0);
    }
    contracts.0 = kept;
}

/// No survivor of an evaluation at stop `n` still bears stop number `n`.
pub proof fn lemma_kept_no_match(cs: Seq<Contract>, n: int)
    ensures
        forall|i: int|
            0 <= i < kept_contracts(cs, n).len() ==> (#[trigger] kept_contracts(cs, n)[i]).stop_number
                != n,
    decreases cs.len(),
{
    if cs.len() > 0 {
        lemma_kept_no_match(cs.drop_last(), n);
        let prev = kept_contracts(cs.drop_last(), n);
        let all = kept_contracts(cs, n);
        assert forall|i: int| 0 <= i < all.len() implies (#[trigger] all[i]).stop_number != n by {
            if cs.last().stop_number != n {
                assert(all == prev.push(cs.last()));
                if i < prev.len() {
                    assert(all[i] == prev[i]);
                } else {
                    assert(all[i] == cs.last());
                }
            } else {
                assert(all == prev);
            }
        }
    }
}

/// Evaluating contracts none of which expire at stop `n` moves nothing and
/// keeps every contract.
pub proof fn lemma_evaluate_no_match(vs: Seq<Seq<u64>>, cs: Seq<Contract>, n: int)
    requires
        forall|i: int| 0 <= i < cs.len() ==> (#[trigger] cs[i]).stop_number != n,
    ensures
        evaluate_views(vs, cs, n) == vs,
        kept_contracts(cs, n) == cs,
    decreases cs.len(),
{
    if cs.len() > 0 {
        assert forall|i: int| 0 <= i < cs.drop_last().len() implies (
        #[trigger] cs.drop_last()[i]).stop_number != n by {
            assert(cs.drop_last()[i] == cs[i]);
        }
        lemma_evaluate_no_match(vs, cs.drop_last(), n);
        assert(kept_contracts(cs, n) =~= cs);
    }
}

/// Law (idempotence): evaluating the ledger a second time at the same stop
/// number is a no-op, for the ledger and for the inventories alike.
pub proof fn lemma_evaluate_idempotent(vs: Seq<Seq<u64>>, cs: Seq<Contract>, n: int)
    ensures
        evaluate_views(evaluate_views(vs, cs, n), kept_contracts(cs, n), n) == evaluate_views(
            vs,
            cs,
            n,
        ),
        kept_contracts(kept_contracts(cs, n), n) == kept_contracts(cs, n),
{
    lemma_kept_no_match(cs, n);
    lemma_evaluate_no_match(evaluate_views(vs, cs, n), kept_contracts(cs, n), n);
}

} // verus!
