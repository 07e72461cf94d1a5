//! Route generation: the seeded game world and the stops the train reaches.
//!
//! A stop is a town, a goblin ambush, or the route-start marker. Stops carry a
//! monotonic stop number used by the contract ledger; an arrival after an
//! ambush reuses the ambush's number so that no contract can expire twice in
//! a row. Ambushes never chain: after an ambush the next stop is forced to be
//! a town.

use vstd::prelude::*;
use vstd::string::StringExecFns;
use rand_chacha::ChaCha8Rng;

use crate::rng::{rng_below, rng_from_seed};

verus! {

/// The game session's singleton state: the seeded random stream every
/// generation draw comes from.
pub struct GameWorld {
    rng: ChaCha8Rng,
}

impl GameWorld {
    /// A fresh world whose random stream is determined by `seed` alone.
    pub fn new(seed: u64) -> (world: GameWorld) {
        GameWorld { rng: rng_from_seed(seed) }
    }

    /// One draw from the world's random stream, below `n`.
    pub fn draw_below(&mut self, n: u32) -> (r: u32)
        requires
            n >= 1,
        ensures
            r < n,
    {
        rng_below(&mut self.rng, n)
    }
}

/// The one kind of enemy an ambush wave can hold.
#[derive(Clone, Copy, PartialEq, Eq, Structural, Debug)]
pub enum GoblinType {
    Basic,
}

/// A point along the route the train can arrive at.
pub enum Stop {
    /// A settlement: opens the stop menu and its contract booths.
    Town,
    /// An ambush: `waves` of enemies attack the stopped train in order.
    GoblinAttack { waves: Vec<Vec<GoblinType>> },
    /// The route-start marker; never generated, never rendered.
    Initial,
}

/// The mathematical contents of an ambush's wave list.
pub open spec fn waves_model(waves: Vec<Vec<GoblinType>>) -> Seq<Seq<GoblinType>> {
    waves@.map_values(|wave: Vec<GoblinType>| wave@)
}

/// Two stops carry the same information.
pub open spec fn same_stop(a: Stop, b: Stop) -> bool {
    match (a, b) {
        (Stop::Town, Stop::Town) => true,
        (Stop::Initial, Stop::Initial) => true,
        (Stop::GoblinAttack { waves: wa }, Stop::GoblinAttack { waves: wb }) => waves_model(wa)
            == waves_model(wb),
        _ => false,
    }
}

/// A generated ambush holds one to ten waves of one to ten basic enemies.
pub open spec fn stop_wf(s: Stop) -> bool {
    match s {
        Stop::GoblinAttack { waves } => {
            &&& 1 <= waves@.len() <= 10
            &&& forall|w: int| 0 <= w < waves@.len() ==> 1 <= (#[trigger] waves@[w])@.len() <= 10
        },
        _ => true,
    }
}

impl Clone for Stop {
    /// A deep copy carrying the same information.
    fn clone(&self) -> (s: Stop)
        ensures
            same_stop(s, *self),
    {
        match self {
            Stop::Town => Stop::Town,
            Stop::Initial => Stop::Initial,
            Stop::GoblinAttack { waves } => {
                let mut waves_copy: Vec<Vec<GoblinType>> = Vec::new();
                let mut i: usize = 0;
                while i < waves.len()
                    invariant
                        i <= waves@.len(),
                        waves_copy@.len() == i,
                        forall|j: int| 0 <= j < i ==> (#[trigger] waves_copy@[j])@ == waves@[j]@,
                    decreases waves@.len() - i,
                {
                    let wave = &waves[i];
                    let mut wave_copy: Vec<GoblinType> = Vec::new();
                    let mut g: usize = 0;
                    while g < wave.len()
                        invariant
                            g <= wave@.len(),
                            wave_copy@.len() == g,
                            forall|h: int| 0 <= h < g ==> wave_copy@[h] == wave@[h],
                        decreases wave@.len() - g,
                    {
                        wave_copy.push(wave[g]);
                        g = g + 1;
                    }
                    proof {
                        assert(wave_copy@ =~= waves@[i as int]@);
                    }
                    waves_copy.push(wave_copy);
                    i = i + 1;
                }
                proof {
                    assert(waves_model(waves_copy) =~= waves_model(*waves));
                }
                Stop::GoblinAttack { waves: waves_copy }
            },
        }
    }
}

/// A [`Stop`] paired with its monotonic stop number.
pub struct NumberedStop(pub Stop, pub usize);

impl Clone for NumberedStop {
    /// A deep copy carrying the same stop and number.
    fn clone(&self) -> (s: NumberedStop)
        ensures
            same_stop(s.0, self.0),
            s.1 == self.1,
    {
        NumberedStop(self.0.clone(), self.1)
    }
}

/// Stop number of the stop generated after `prior`: one more than the prior
/// stop's number, except that the stop following a goblin ambush reuses the
/// ambush's number, and the very first generated stop is numbered one.
pub open spec fn next_number(prior: Option<NumberedStop>) -> int {
    match prior {
        Option::None => 1,
        Option::Some(ns) => if ns.0 is GoblinAttack {
            ns.1 as int
        } else {
            ns.1 + 1
        },
    }
}

/// The generation step relation between a prior stop and the stop generated
/// from it.
pub open spec fn stop_succ(prior: Option<NumberedStop>, next: NumberedStop) -> bool {
    &&& next.1 == next_number(prior)
    &&& !(next.0 is Initial)
    &&& match prior {
        Option::Some(p) => p.0 is GoblinAttack ==> next.0 is Town,
        Option::None => true,
    }
}

/// Walks an ambush's waves in order: attached to an ambush site, it hands
/// out one wave at a time whenever the previous wave is defeated, and runs
/// dry once every wave was spawned.
pub struct GoblinSpawner {
    waves: Vec<Vec<GoblinType>>,
    current_wave: usize,
}

impl GoblinSpawner {
    /// The waves this spawner was created with.
    pub closed spec fn waves_view(&self) -> Seq<Seq<GoblinType>> {
        waves_model(self.waves)
    }

    /// How many waves were already handed out.
    pub closed spec fn cursor(&self) -> int {
        self.current_wave as int
    }

    /// A spawner over `waves`, none handed out yet.
    pub fn new(waves: Vec<Vec<GoblinType>>) -> (spawner: GoblinSpawner)
        ensures
            spawner.waves_view() == waves_model(waves),
            spawner.cursor() == 0,
    {
        GoblinSpawner { waves, current_wave: 0 }
    }

    /// The next wave to spawn, advancing the spawner; nothing once every
    /// wave was handed out, upon which the spawner's site can be despawned.
    pub fn next_wave(&mut self) -> (wave: Option<Vec<GoblinType>>)
        ensures
            final(self).waves_view() == old(self).waves_view(),
            old(self).cursor() >= old(self).waves_view().len() ==> wave is None
                && final(self).cursor() == old(self).cursor(),
            old(self).cursor() < old(self).waves_view().len() ==> (wave matches Option::Some(w)
                && w@ == old(self).waves_view()[old(self).cursor()]
                && final(self).cursor() == old(self).cursor() + 1),
    {
        let idx = self.current_wave;
        if idx >= self.waves.len() {
            return Option::None;
        }
        let n = self.waves[idx].len();
        let mut wave_copy: Vec<GoblinType> = Vec::new();
        let mut g: usize = 0;
        while g < n
            invariant
                g <= n,
                idx < self.waves@.len(),
                n == self.waves@[idx as int]@.len(),
                self == old(self),
                wave_copy@.len() == g,
                forall|h: int| 0 <= h < g ==> wave_copy@[h] == self.waves@[idx as int]@[h],
            decreases n - g,
        {
            let goblin = self.waves[idx][g];
            wave_copy.push(goblin);
            g = g + 1;
        }
        proof {
            assert(wave_copy@ =~= self.waves@[idx as int]@);
        }
        self.current_wave = idx + 1;
        Option::Some(wave_copy)
    }
}

/// The upcoming stop: where it lies on the route, what it is, what it is
/// called, and whether its world visuals exist yet.
pub struct NextStop {
    /// The stop itself with its number.
    pub stop: NumberedStop,
    /// Route distance of the stop, in route units; strictly beyond the
    /// distance the train had when the stop was generated.
    pub distance: u64,
    /// Whether the presentation layer has instantiated the stop's visuals.
    pub spawned: bool,
    /// Display name of the stop.
    pub name: String,
}

/// The most recently arrived-at stop, or none before the first arrival.
pub struct CurrentStop(pub Option<NumberedStop>);

/// First halves of generated town names, by word index.
pub open spec fn first_half_spec(i: int) -> Seq<char> {
    if i == 0 {
        "Snod"@
    } else if i == 1 {
        "Bell"@
    } else if i == 2 {
        "South"@
    } else if i == 3 {
        "Hamburger"@
    } else if i == 4 {
        "East West"@
    } else {
        "Hamburger Schlamburger"@
    }
}

/// Second halves of generated town names, by word index.
pub open spec fn second_half_spec(i: int) -> Seq<char> {
    if i == 0 {
        " Upon Trent"@
    } else if i == 1 {
        "sbury"@
    } else if i == 2 {
        "ceston"@
    } else if i == 3 {
        "chester"@
    } else if i == 4 {
        " Schlamburger"@
    } else if i == 5 {
        " Hamburger Schlamburger"@
    } else {
        "phalia"@
    }
}

/// A town name is a first half concatenated with a second half.
pub open spec fn is_town_name(s: Seq<char>) -> bool {
    exists|i: int, j: int|
        0 <= i < 6 && 0 <= j < 7 && s == #[trigger] first_half_spec(i) + #[trigger] second_half_spec(
            j,
        )
}

fn first_half(i: usize) -> (r: &'static str)
    requires
        i < 6,
    ensures
        r@ == first_half_spec(i as int),
{
    if i == 0 {
        "Snod"
    } else if i == 1 {
        "Bell"
    } else if i == 2 {
        "South"
    } else if i == 3 {
        "Hamburger"
    } else if i == 4 {
        "East West"
    } else {
        "Hamburger Schlamburger"
    }
}

fn second_half(j: usize) -> (r: &'static str)
    requires
        j < 7,
    ensures
        r@ == second_half_spec(j as int),
{
    if j == 0 {
        " Upon Trent"
    } else if j == 1 {
        "sbury"
    } else if j == 2 {
        "ceston"
    } else if j == 3 {
        "chester"
    } else if j == 4 {
        " Schlamburger"
    } else if j == 5 {
        " Hamburger Schlamburger"
    } else {
        "phalia"
    }
}

/// A random town name: a first half and a second half, drawn independently.
pub fn generate_town_name(world: &mut GameWorld) -> (name: String)
    ensures
        is_town_name(name@),
{
    let i = world.draw_below(6) as usize;
    let j = world.draw_below(7) as usize;
    let mut name = String::from_str(first_half(i));
    name.append(second_half(j));
    proof {
        assert(name@ == first_half_spec(i as int) + second_half_spec(j as int));
    }
    name
}

/// One to ten waves of one to ten basic goblins each, all counts uniform.
pub fn generate_waves(world: &mut GameWorld) -> (waves: Vec<Vec<GoblinType>>)
    ensures
        1 <= waves@.len() <= 10,
        forall|w: int| 0 <= w < waves@.len() ==> 1 <= (#[trigger] waves@[w])@.len() <= 10,
{
    let wave_count = 1 + world.draw_below(10) as usize;
    let mut waves: Vec<Vec<GoblinType>> = Vec::new();
    let mut w: usize = 0;
    while w < wave_count
        invariant
            w <= wave_count,
            wave_count <= 10,
            waves@.len() == w,
            forall|k: int| 0 <= k < w ==> 1 <= (#[trigger] waves@[k])@.len() <= 10,
        decreases wave_count - w,
    {
        let goblin_count = 1 + world.draw_below(10) as usize;
        let mut wave: Vec<GoblinType> = Vec::new();
        let mut g: usize = 0;
        while g < goblin_count
            invariant
                g <= goblin_count,
                wave@.len() == g,
            decreases goblin_count - g,
        {
            wave.push(GoblinType::Basic);
            g = g + 1;
        }
        waves.push(wave);
        w = w + 1;
    }
    waves
}

impl Stop {
    /// Draws the next stop's kind: towns and ambushes weighted five to one,
    /// except that the stop after an ambush is always a town.
    pub fn generate_random(world: &mut GameWorld, current_stop: &CurrentStop) -> (stop: Stop)
        ensures
            stop_wf(stop),
            !(stop is Initial),
            (match current_stop.0 {
                Option::Some(p) => p.0 is GoblinAttack,
                Option::None => false,
            }) ==> stop is Town,
    {
        let force_town = match &current_stop.0 {
            Option::Some(ns) => match &ns.0 {
                Stop::GoblinAttack { .. } => true,
                _ => false,
            },
            Option::None => false,
        };
        if force_town {
            Stop::Town
        } else {
            let roll = world.draw_below(6);
            if roll < 5 {
                Stop::Town
            } else {
                Stop::GoblinAttack { waves: generate_waves(world) }
            }
        }
    }

    /// The stop's display name: a random town name, or the fixed ambush
    /// banner.
    pub fn generate_name(&self, world: &mut GameWorld) -> (name: String)
        ensures
            self is GoblinAttack ==> name@ == "Goblin Ambush"@,
            !(self is GoblinAttack) ==> is_town_name(name@),
    {
        match self {
            Stop::GoblinAttack { .. } => String::from_str("Goblin Ambush"),
            _ => generate_town_name(world),
        }
    }
}

/// Generates the upcoming stop from the train's position and the stop it
/// stands at: a gap of 60 to 140 route units, a kind weighted five towns to
/// one ambush (a town always directly after an ambush), the stop number given
/// by [`next_number`], and a display name.
pub fn generate_next_stop(
    world: &mut GameWorld,
    current_distance: u64,
    current_stop: &CurrentStop,
) -> (next: NextStop)
    requires
        current_distance + 140 <= u64::MAX,
        0 <= next_number(current_stop.0) <= usize::MAX,
    ensures
        stop_succ(current_stop.0, next.stop),
        stop_wf(next.stop.0),
        current_distance + 60 <= next.distance <= current_distance + 140,
        !next.spawned,
        next.stop.0 is GoblinAttack ==> next.name@ == "Goblin Ambush"@,
        !(next.stop.0 is GoblinAttack) ==> is_town_name(next.name@),
{
    let gap = 60 + world.draw_below(81) as u64;
    let distance = current_distance + gap;
    let stop = Stop::generate_random(world, current_stop);
    let name = stop.generate_name(world);
    let number: usize = match &current_stop.0 {
        Option::Some(ns) => match &ns.0 {
            Stop::GoblinAttack { .. } => ns.1,
            _ => ns.1 + 1,
        },
        Option::None => 1,
    };
    NextStop { stop: NumberedStop(stop, number), distance, spawned: false, name }
}

/// Whether the upcoming stop's world visuals are due: not instantiated yet
/// and within `horizon` route units ahead of the train.
pub fn visuals_due(next_stop: &NextStop, train_distance: u64, horizon: u64) -> (due: bool)
    requires
        train_distance + horizon <= u64::MAX,
    ensures
        due <==> (!next_stop.spawned && next_stop.distance < train_distance + horizon),
{
    !next_stop.spawned && next_stop.distance < train_distance + horizon
}

/// Records that the upcoming stop's world visuals were instantiated, so they
/// are not instantiated twice.
pub fn mark_spawned(next_stop: &mut NextStop)
    ensures
        final(next_stop).spawned,
        final(next_stop).stop == old(next_stop).stop,
        final(next_stop).distance == old(next_stop).distance,
        final(next_stop).name == old(next_stop).name,
{
    next_stop.spawned = true;
}

/// Seeds a fresh session: the world, the route-start marker as the current
/// stop, and the first generated stop.
pub fn generate_world(seed: u64) -> (session: (GameWorld, CurrentStop, NextStop))
    ensures
        session.1.0 matches Option::Some(ns) && ns.0 is Initial && ns.1 == 0,
        stop_succ(Option::None, session.2.stop),
        stop_wf(session.2.stop.0),
        60 <= session.2.distance <= 140,
        !session.2.spawned,
{
    let mut world = GameWorld::new(seed);
    let none_yet = CurrentStop(Option::None);
    let next = generate_next_stop(&mut world, 0, &none_yet);
    let current = CurrentStop(Option::Some(NumberedStop(Stop::Initial, 0)));
    (world, current, next)
}

/// Law: along any chain of generated stops, stop numbers never decrease, two
/// adjacent non-ambush stops differ by exactly one, and the town forced after
/// an ambush differs from the non-ambush stop before that ambush by exactly
/// one. In particular no two consecutive non-ambush stops share a number.
pub proof fn lemma_stop_numbers(stops: Seq<NumberedStop>)
    requires
        forall|i: int|
            0 < i < stops.len() ==> stop_succ(Option::Some(stops[i - 1]), #[trigger] stops[i]),
    ensures
        forall|i: int| 0 < i < stops.len() ==> stops[i - 1].1 <= #[trigger] stops[i].1,
        forall|i: int|
            0 < i < stops.len() && !(stops[i - 1].0 is GoblinAttack) && !((
            #[trigger] stops[i]).0 is GoblinAttack) ==> stops[i].1 == stops[i - 1].1 + 1,
        forall|i: int|
            0 < i && i + 1 < stops.len() && !(stops[i - 1].0 is GoblinAttack) && (
            #[trigger] stops[i]).0 is GoblinAttack ==> stops[i + 1].1 == stops[i - 1].1 + 1,
{
    assert forall|i: int|
        0 < i && i + 1 < stops.len() && !(stops[i - 1].0 is GoblinAttack) && (
        #[trigger] stops[i]).0 is GoblinAttack implies stops[i + 1].1 == stops[i - 1].1 + 1 by {
        assert(stop_succ(Option::Some(stops[i - 1]), stops[i]));
        assert(stop_succ(Option::Some(stops[i]), stops[i + 1]));
    }
}

} // verus!
