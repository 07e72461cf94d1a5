//! The contract economy: randomized delivery offers signed at town stops.
//!
//! A contract asks for an amount of one item and rewards an amount of another
//! (possibly the same) item when the route reaches its expiry stop. The reward
//! scales super-linearly with difficulty: `floor(a * sqrt(a / 10))` for a
//! required amount `a`, which for the generated range of amounts is never less
//! than 1.2 times the required amount.

use vstd::prelude::*;

use crate::items::Item;
use crate::world::{CurrentStop, GameWorld};

verus! {

/// A delivery offer: hand over `required` before the route reaches
/// `stop_number` and be paid `reward`.
#[derive(Clone, Copy, Debug)]
pub struct Contract {
    /// Item kind and amount the contract demands.
    pub required: (Item, u64),
    /// Item kind and amount paid out when the demand is met.
    pub reward: (Item, u64),
    /// Stop number at which the contract is settled or fails.
    pub stop_number: usize,
}

/// `r` is the reward owed for a required amount `a`: the integer square root
/// of `a*a*a / 10`, which equals `floor(a * sqrt(a / 10))`.
pub open spec fn is_reward_amount(a: int, r: int) -> bool {
    let c = (a * a * a) / 10;
    &&& 0 <= r
    &&& r * r <= c
    &&& c < (r + 1) * (r + 1)
}

/// Everything generation promises of a contract drawn at stop `current`: the
/// required amount lies in [15, 100), the reward follows the difficulty
/// formula, and the contract expires two to six stops later.
pub open spec fn contract_wf(c: Contract, current: int) -> bool {
    &&& 15 <= c.required.1 < 100
    &&& is_reward_amount(c.required.1 as int, c.reward.1 as int)
    &&& current + 2 <= c.stop_number <= current + 6
}

/// Largest `r` with `r * r <= n`.
fn isqrt(n: u64) -> (r: u64)
    requires
        n < 0x1_0000_0000,
    ensures
        r * r <= n < (r + 1) * (r + 1),
{
    let mut r: u64 = 0;
    while (r + 1) * (r + 1) <= n
        invariant
            n < 0x1_0000_0000,
            r < 0x1_0000,
            (r + 1) * (r + 1) < 0x2_0000_0000,
            r * r <= n,
        decreases n - r,
    {
        proof {
            assert(r + 1 < 0x1_0000) by (nonlinear_arith)
                requires
                    (r + 1) * (r + 1) <= n,
                    n < 0x1_0000_0000,
            ;
            assert((r + 2) * (r + 2) < 0x2_0000_0000) by (nonlinear_arith)
                requires
                    r + 1 < 0x1_0000,
            ;
            assert(r + 1 <= n) by (nonlinear_arith)
                requires
                    (r + 1) * (r + 1) <= n,
            ;
        }
        r = r + 1;
    }
    r
}

/// The reward owed for a required amount: `floor(a * sqrt(a / 10))`.
pub fn reward_amount(required_amount: u64) -> (r: u64)
    requires
        15 <= required_amount < 100,
    ensures
        is_reward_amount(required_amount as int, r as int),
{
    proof {
        assert(required_amount * required_amount < 10000 && required_amount * required_amount
            * required_amount < 1000000) by (nonlinear_arith)
            requires
                required_amount < 100,
        ;
    }
    let cube = required_amount * required_amount * required_amount;
    isqrt(cube / 10)
}

impl Contract {
    /// Draws a contract at stop number `current_stop_number`: required and
    /// reward item kinds uniform over all kinds (they may coincide), required
    /// amount uniform in [15, 100), expiry two to six stops ahead.
    pub fn generate_random(world: &mut GameWorld, current_stop_number: usize) -> (c: Contract)
        requires
            current_stop_number + 6 <= usize::MAX,
        ensures
            contract_wf(c, current_stop_number as int),
    {
        let required_item = Item::from_index(world.draw_below(9) as usize);
        let reward_item = Item::from_index(world.draw_below(9) as usize);
        let amount = 15 + world.draw_below(85) as u64;
        let reward = reward_amount(amount);
        let offset = 2 + world.draw_below(5) as usize;
        Contract {
            required: (required_item, amount),
            reward: (reward_item, reward),
            stop_number: current_stop_number + offset,
        }
    }
}

/// The offers laid out on the stop menu's booths: one independently drawn
/// contract per booth slot while standing at a town, and none anywhere else.
pub fn generate_stop_offers(
    world: &mut GameWorld,
    current_stop: &CurrentStop,
    booths: usize,
) -> (offers: Vec<Contract>)
    requires
        match current_stop.0 {
            Option::Some(ns) => ns.1 + 6 <= usize::MAX,
            Option::None => true,
        },
    ensures
        match current_stop.0 {
            Option::Some(ns) => if ns.0 is Town {
                &&& offers@.len() == booths
                &&& forall|k: int|
                    0 <= k < booths ==> contract_wf(#[trigger] offers@[k], ns.1 as int)
            } else {
                offers@.len() == 0
            },
            Option::None => offers@.len() == 0,
        },
{
    let mut offers: Vec<Contract> = Vec::new();
    let at_town_number: Option<usize> = match &current_stop.0 {
        Option::Some(ns) => match &ns.0 {
            crate::world::Stop::Town => Option::Some(ns.1),
            _ => Option::None,
        },
        Option::None => Option::None,
    };
    if let Option::Some(number) = at_town_number {
        let mut k: usize = 0;
        while k < booths
            invariant
                k <= booths,
                number + 6 <= usize::MAX,
                offers@.len() == k,
                forall|j: int| 0 <= j < k ==> contract_wf(#[trigger] offers@[j], number as int),
            decreases booths - k,
        {
            offers.push(Contract::generate_random(world, number));
            k = k + 1;
        }
    }
    offers
}

/// Law: a contract drawn at stop `current` rewards at least 1.2 times its
/// required amount, rounded down, and expires between two and six stops after
/// `current`.
pub proof fn lemma_contract_reward_floor(c: Contract, current: int)
    requires
        contract_wf(c, current),
    ensures
        c.reward.1 >= (c.required.1 * 6) / 5,
        current + 2 <= c.stop_number <= current + 6,
{
    let a = c.required.1 as int;
    let r = c.reward.1 as int;
    let cube_tenth = (a * a * a) / 10;
    let floor_six_fifths = (a * 6) / 5;
    assert(5 * floor_six_fifths <= 6 * a && 6 * a < 5 * floor_six_fifths + 5) by (nonlinear_arith)
        requires
            floor_six_fifths == (a * 6) / 5,
            a >= 15,
    ;
    assert(10 * cube_tenth <= a * a * a && a * a * a < 10 * cube_tenth + 10) by (nonlinear_arith)
        requires
            cube_tenth == (a * a * a) / 10,
            a >= 15,
    ;
    assert(floor_six_fifths * floor_six_fifths <= cube_tenth) by (nonlinear_arith)
        requires
            15 <= a < 100,
            0 <= floor_six_fifths,
            5 * floor_six_fifths <= 6 * a,
            10 * cube_tenth <= a * a * a,
            a * a * a < 10 * cube_tenth + 10,
    ;
    assert(r >= floor_six_fifths) by (nonlinear_arith)
        requires
            floor_six_fifths >= 0,
            r >= 0,
            floor_six_fifths * floor_six_fifths <= cube_tenth,
            cube_tenth < (r + 1) * (r + 1),
    ;
}

} // verus!
