//! The arrival sequence: what one stop of the journey does to the session.
//!
//! Within a frame the phases never overlap and run in a fixed order: the
//! arrival is recorded first, then the ledger is evaluated against the new
//! stop number, then a town's booths fill with offers, and last the
//! following stop is generated. Each phase is the single writer of the state
//! it touches.

use vstd::prelude::*;

use crate::contracts::{contract_wf, generate_stop_offers, Contract};
use crate::items::{invs_wf, views, Inventory};
use crate::ledger::{evaluate_contracts, evaluate_views, kept_contracts, ActiveContracts};
use crate::train::{arrive_at_stop, StopEvent};
use crate::world::{
    generate_next_stop, same_stop, stop_succ, stop_wf, CurrentStop, GameWorld, NextStop,
};

verus! {

/// Number of contract booths a town's stop menu offers.
pub const BOOTH_SLOTS: usize = 6;

/// Handles the train reaching the upcoming stop, in the frame order the
/// session guarantees: records the arrival, settles every contract expiring
/// at the new stop number, fills a town's booths with fresh offers, and
/// generates the stop after this one. Hands back the arrival announcement
/// and the offers laid out for signing.
pub fn handle_arrival(
    world: &mut GameWorld,
    current_stop: &mut CurrentStop,
    next_stop: &mut NextStop,
    ledger: &mut ActiveContracts,
    inventories: &mut Vec<Inventory>,
    booths: usize,
) -> (outcome: (StopEvent, Vec<Contract>))
    requires
        invs_wf(views(old(inventories)@)),
        old(next_stop).distance + 140 <= u64::MAX,
        old(next_stop).stop.1 + 6 <= usize::MAX,
    ensures
        final(current_stop).0 matches Option::Some(ns) && ns.1 == old(next_stop).stop.1
            && same_stop(ns.0, old(next_stop).stop.0),
        same_stop(outcome.0.stop, old(next_stop).stop.0),
        outcome.0.name@ == old(next_stop).name@,
        final(ledger).0@ == kept_contracts(old(ledger).0@, old(next_stop).stop.1 as int),
        views(final(inventories)@) == evaluate_views(
            views(old(inventories)@),
            old(ledger).0@,
            old(next_stop).stop.1 as int,
        ),
        invs_wf(views(final(inventories)@)),
        final(inventories)@.len() == old(inventories)@.len(),
        old(next_stop).stop.0 is Town ==> outcome.1@.len() == booths && (forall|k: int|
            0 <= k < booths ==> contract_wf(
                #[trigger] outcome.1@[k],
                old(next_stop).stop.1 as int,
            )),
        !(old(next_stop).stop.0 is Town) ==> outcome.1@.len() == 0,
        stop_succ(final(current_stop).0, final(next_stop).stop),
        stop_wf(final(next_stop).stop.0),
        old(next_stop).distance + 60 <= final(next_stop).distance <= old(next_stop).distance
            + 140,
        !final(next_stop).spawned,
{
    let ev = arrive_at_stop(current_stop, next_stop);
    let arrived_number = match &current_stop.0 {
        Option::Some(ns) => ns.1,
        Option::None => 0,
    };
    evaluate_contracts(ledger, inventories, arrived_number);
    let offers = generate_stop_offers(world, current_stop, booths);
    let reached_distance = next_stop.distance;
    *next_stop = generate_next_stop(world, reached_distance, current_stop);
    (ev, offers)
}

} // verus!
