//! The train's coarse state machine and its arrival bookkeeping.
//!
//! The float physics of acceleration live with the presentation layer; this
//! module holds the decisions: what phase the remaining distance puts the
//! train in, when an advance press may go through, and what arriving at the
//! upcoming stop does to the session state.

use vstd::prelude::*;

use crate::world::{same_stop, CurrentStop, NextStop, NumberedStop, Stop};

verus! {

/// Length of one train car, in pixels.
pub const CAR_SIZE: u64 = 144;

/// Remaining distance, in route units, below which the train counts as
/// arriving and begins its final slowdown.
pub const ARRIVING_DISTANCE: u64 = 17;

/// What the train is doing.
#[derive(Clone, Copy, PartialEq, Eq, Structural, Debug, Hash)]
pub enum TrainState {
    /// Standing at a stop; contracts are evaluated on entering this state.
    Stopped,
    /// Rolling toward the next stop.
    Advancing,
    /// Close to the next stop, slowing down.
    Arriving,
}

/// Fixed properties of the train.
#[derive(Clone, Copy, PartialEq, Eq, Structural, Debug)]
pub struct TrainStats {
    /// Number of cars between locomotive and caboose.
    pub length: usize,
    /// Acceleration while advancing, in route units per second squared.
    pub acceleration: u64,
    /// Top speed, in route units per second.
    pub max_velocity: u64,
}

impl TrainStats {
    /// Pixel length of the car section of the train.
    pub fn train_size(&self) -> (size: u64)
        requires
            self.length * CAR_SIZE <= u64::MAX,
        ensures
            size == self.length * CAR_SIZE,
    {
        (self.length as u64) * CAR_SIZE
    }
}

/// The phase the remaining distance to the upcoming stop puts the train in:
/// stopped on arrival, arriving within the slowdown window, else advancing.
pub fn train_phase(remaining_distance: u64) -> (state: TrainState)
    ensures
        remaining_distance == 0 ==> state is Stopped,
        0 < remaining_distance < ARRIVING_DISTANCE ==> state is Arriving,
        remaining_distance >= ARRIVING_DISTANCE ==> state is Advancing,
{
    if remaining_distance == 0 {
        TrainState::Stopped
    } else if remaining_distance < ARRIVING_DISTANCE {
        TrainState::Arriving
    } else {
        TrainState::Advancing
    }
}

/// An advance press goes through only while no advance blocker is visible.
pub fn advance_allowed(blockers_visible: &Vec<bool>) -> (allowed: bool)
    ensures
        allowed <==> (forall|i: int| 0 <= i < blockers_visible@.len() ==> !blockers_visible@[i]),
{
    let n = blockers_visible.len();
    let mut i: usize = 0;
    while i < n
        invariant
            i <= n,
            n == blockers_visible@.len(),
            forall|j: int| 0 <= j < i ==> !blockers_visible@[j],
        decreases n - i,
    {
        if blockers_visible[i] {
            return false;
        }
        i = i + 1;
    }
    true
}

/// What a stopped train announces: the stop it reached and its display name.
pub struct StopEvent {
    /// The stop arrived at.
    pub stop: Stop,
    /// Its display name.
    pub name: String,
}

/// An accepted advance press: the train leaves its stop, and there is no
/// current stop until the next arrival.
pub fn start_advancing(current_stop: &mut CurrentStop) -> (state: TrainState)
    ensures
        final(current_stop).0 is None,
        state is Advancing,
{
    current_stop.0 = Option::None;
    TrainState::Advancing
}

/// The train reaches the upcoming stop: that stop becomes the current one
/// and the arrival is announced.
pub fn arrive_at_stop(current_stop: &mut CurrentStop, next_stop: &NextStop) -> (ev: StopEvent)
    ensures
        final(current_stop).0 matches Option::Some(ns) && ns.1 == next_stop.stop.1 && same_stop(
            ns.0,
            next_stop.stop.0,
        ),
        same_stop(ev.stop, next_stop.stop.0),
        ev.name@ == next_stop.name@,
{
    let arrived = next_stop.stop.clone();
    let ev = StopEvent { stop: next_stop.stop.0.clone(), name: next_stop.name.clone() };
    current_stop.0 = Option::Some(arrived);
    ev
}

} // verus!
