//! Build placement and production: snapping the cursor to the nearest
//! attachment point, turning a confirmed placement into a building, and the
//! periodic resource production of finished buildings.
//!
//! Positions are integer world coordinates. A placement is eligible only
//! while the squared distance between the cursor and a candidate attachment
//! point stays within the snap radius; among eligible candidates the nearest
//! wins, with ties broken in favour of the first one encountered.

use vstd::prelude::*;

use crate::items::{invs_wf, item_index, sat_add, views, Inventory, Item, ITEM_KINDS};

verus! {

/// A 2D point or offset in integer world coordinates.
#[derive(Clone, Copy, PartialEq, Eq, Structural, Debug)]
pub struct Vec2i {
    /// Horizontal coordinate, in world units.
    pub x: i64,
    /// Vertical coordinate, in world units.
    pub y: i64,
}

/// Squared Euclidean distance between two points.
pub open spec fn dist_sq(a: Vec2i, b: Vec2i) -> int {
    (a.x - b.x) * (a.x - b.x) + (a.y - b.y) * (a.y - b.y)
}

/// Coordinates the placement logic accepts; far larger than any camera can
/// reach, small enough that squared distances cannot overflow.
pub open spec fn in_world_bounds(p: Vec2i) -> bool {
    &&& -1_000_000 <= p.x <= 1_000_000
    &&& -1_000_000 <= p.y <= 1_000_000
}

/// Snap radius for build placement, in world units.
pub const MAX_CONSTRUCTION_SNAPPING: u64 = 40;

fn dist_sq_exec(a: Vec2i, b: Vec2i) -> (d: i64)
    requires
        in_world_bounds(a),
        in_world_bounds(b),
    ensures
        d == dist_sq(a, b),
{
    let dx = a.x - b.x;
    let dy = a.y - b.y;
    proof {
        assert(dx * dx <= 4_000_000_000_000 && dx * dx >= 0) by (nonlinear_arith)
            requires
                -2_000_000 <= dx <= 2_000_000,
        ;
        assert(dy * dy <= 4_000_000_000_000 && dy * dy >= 0) by (nonlinear_arith)
            requires
                -2_000_000 <= dy <= 2_000_000,
        ;
    }
    dx * dx + dy * dy
}

/// A relative attachment point on a train car or a building where a new
/// building may be placed; consumed the instant a building is placed there.
#[derive(Clone, Copy, PartialEq, Eq, Structural, Debug)]
pub struct BuildLocation(pub Vec2i);

/// An attachment point as the placement logic sees it: which entity carries
/// it, which parent a building placed there would attach to, its offset on
/// that parent, and its position in world space (parent transform plus
/// offset).
#[derive(Clone, Copy, PartialEq, Eq, Structural, Debug)]
pub struct BuildCandidate {
    /// Entity id of the attachment point itself.
    pub location_entity: u64,
    /// Entity id of the parent the attachment point belongs to.
    pub parent: u64,
    /// Offset of the attachment point relative to its parent.
    pub offset: Vec2i,
    /// World-space position of the attachment point.
    pub world_pos: Vec2i,
}

/// Every candidate's world position lies within the accepted coordinates.
pub open spec fn candidates_in_bounds(cands: Seq<BuildCandidate>) -> bool {
    forall|i: int| 0 <= i < cands.len() ==> in_world_bounds((#[trigger] cands[i]).world_pos)
}

/// `choice` is what nearest-snapping must return for `cursor` among `cands`:
/// nothing when no candidate lies within the snap distance, else the first
/// candidate at the minimal squared distance.
pub open spec fn is_nearest_choice(
    cursor: Vec2i,
    cands: Seq<BuildCandidate>,
    max_dist_sq: int,
    choice: Option<usize>,
) -> bool {
    match choice {
        Option::None => forall|j: int|
            0 <= j < cands.len() ==> dist_sq(cursor, (#[trigger] cands[j]).world_pos) > max_dist_sq,
        Option::Some(i) => {
            &&& 0 <= (i as int) < cands.len()
            &&& dist_sq(cursor, cands[i as int].world_pos) <= max_dist_sq
            &&& forall|j: int|
                0 <= j < cands.len() ==> dist_sq(cursor, (#[trigger] cands[j]).world_pos) >= dist_sq(
                    cursor,
                    cands[i as int].world_pos,
                )
            &&& forall|j: int|
                0 <= j < i as int ==> dist_sq(cursor, (#[trigger] cands[j]).world_pos) > dist_sq(
                    cursor,
                    cands[i as int].world_pos,
                )
        },
    }
}

/// The nearest candidate within a squared snap distance of `max_dist_sq`,
/// first one encountered on a tie; nothing when every candidate lies farther
/// away.
pub fn find_nearest_within(cursor: Vec2i, candidates: &Vec<BuildCandidate>, max_dist_sq: i64) -> (
    choice: Option<usize>)
    requires
        in_world_bounds(cursor),
        candidates_in_bounds(candidates@),
    ensures
        is_nearest_choice(cursor, candidates@, max_dist_sq as int, choice),
{
    let n = candidates.len();
    let mut found = false;
    let mut best_i: usize = 0;
    let mut best_d: i64 = 0;
    let mut j: usize = 0;
    while j < n
        invariant
            j <= n,
            n == candidates@.len(),
            in_world_bounds(cursor),
            candidates_in_bounds(candidates@),
            !found ==> forall|k: int|
                0 <= k < j ==> dist_sq(cursor, (#[trigger] candidates@[k]).world_pos)
                    > max_dist_sq,
            found ==> {
                &&& (best_i as int) < j
                &&& best_d == dist_sq(cursor, candidates@[best_i as int].world_pos)
                &&& best_d <= max_dist_sq
                &&& forall|k: int|
                    0 <= k < j ==> dist_sq(cursor, (#[trigger] candidates@[k]).world_pos) >= best_d
                &&& forall|k: int|
                    0 <= k < best_i as int ==> dist_sq(
                        cursor,
                        (#[trigger] candidates@[k]).world_pos,
                    ) > best_d
            },
        decreases n - j,
    {
        let d = dist_sq_exec(cursor, candidates[j].world_pos);
        if d <= max_dist_sq && (!found || d < best_d) {
            found = true;
            best_i = j;
            best_d = d;
        }
        j = j + 1;
    }
    if found {
        Option::Some(best_i)
    } else {
        Option::None
    }
}

/// The nearest candidate within the snap radius of
/// [`MAX_CONSTRUCTION_SNAPPING`] world units; see [`find_nearest_within`].
pub fn find_nearest_build_location(cursor: Vec2i, candidates: &Vec<BuildCandidate>) -> (choice:
    Option<usize>)
    requires
        in_world_bounds(cursor),
        candidates_in_bounds(candidates@),
    ensures
        is_nearest_choice(cursor, candidates@, 1600, choice),
{
    find_nearest_within(cursor, candidates, 1600)
}

/// Law (determinism): for one cursor position and one candidate set there is
/// exactly one admissible snapping result; repeated calls cannot disagree.
pub proof fn lemma_nearest_deterministic(
    cursor: Vec2i,
    cands: Seq<BuildCandidate>,
    max_dist_sq: int,
    a: Option<usize>,
    b: Option<usize>,
)
    requires
        is_nearest_choice(cursor, cands, max_dist_sq, a),
        is_nearest_choice(cursor, cands, max_dist_sq, b),
    ensures
        a == b,
{
    match (a, b) {
        (Option::Some(i), Option::Some(j)) => {
            assert(dist_sq(cursor, cands[i as int].world_pos) >= dist_sq(
                cursor,
                cands[j as int].world_pos,
            ));
            assert(dist_sq(cursor, cands[j as int].world_pos) >= dist_sq(
                cursor,
                cands[i as int].world_pos,
            ));
            if i < j {
                assert(dist_sq(cursor, cands[i as int].world_pos) > dist_sq(
                    cursor,
                    cands[j as int].world_pos,
                ));
            }
            if j < i {
                assert(dist_sq(cursor, cands[j as int].world_pos) > dist_sq(
                    cursor,
                    cands[i as int].world_pos,
                ));
            }
        },
        (Option::Some(i), Option::None) => {
            assert(dist_sq(cursor, cands[i as int].world_pos) > max_dist_sq);
        },
        (Option::None, Option::Some(j)) => {
            assert(dist_sq(cursor, cands[j as int].world_pos) > max_dist_sq);
        },
        (Option::None, Option::None) => {},
    }
}

/// The kinds of building the player can place.
#[derive(Clone, Copy, PartialEq, Eq, Structural, Debug)]
pub enum BuildingType {
    Housing,
    Farm,
    Storage,
}

/// Milliseconds between two units yielded by a farm.
pub const FARM_PRODUCTION_INTERVAL_MS: u64 = 2000;

impl BuildingType {
    /// Relative attachment points this kind of building exposes once built.
    pub open spec fn build_locations_spec(self) -> Seq<Vec2i> {
        match self {
            BuildingType::Housing => seq![Vec2i { x: 0, y: 40 }],
            BuildingType::Farm => Seq::<Vec2i>::empty(),
            BuildingType::Storage => seq![Vec2i { x: 0, y: 40 }],
        }
    }

    /// The attachment points a finished building of this kind offers.
    pub fn get_build_locations(&self) -> (r: Vec<Vec2i>)
        ensures
            r@ == self.build_locations_spec(),
    {
        let mut r: Vec<Vec2i> = Vec::new();
        match self {
            BuildingType::Housing => {
                r.push(Vec2i { x: 0, y: 40 });
            },
            BuildingType::Farm => {},
            BuildingType::Storage => {
                r.push(Vec2i { x: 0, y: 40 });
            },
        }
        proof {
            assert(r@ =~= self.build_locations_spec());
        }
        r
    }

    /// Display name of this kind of building.
    pub fn name(&self) -> (r: &'static str)
        ensures
            *self is Housing ==> r@ == "Housing"@,
            *self is Farm ==> r@ == "Farm"@,
            *self is Storage ==> r@ == "Storage"@,
    {
        match self {
            BuildingType::Housing => "Housing",
            BuildingType::Farm => "Farm",
            BuildingType::Storage => "Storage",
        }
    }

    /// Every kind of building, in the order the blueprint window lists them.
    pub fn iterator() -> (r: Vec<BuildingType>)
        ensures
            r@ == seq![BuildingType::Housing, BuildingType::Farm, BuildingType::Storage],
    {
        let mut r: Vec<BuildingType> = Vec::new();
        r.push(BuildingType::Housing);
        r.push(BuildingType::Farm);
        r.push(BuildingType::Storage);
        proof {
            assert(r@ =~= seq![BuildingType::Housing, BuildingType::Farm, BuildingType::Storage]);
        }
        r
    }

    /// The periodic production a building of this kind carries: a farm yields
    /// one unit of food every fixed interval; other kinds produce nothing.
    pub fn get_resource_production(&self) -> (r: Option<ResourceProduction>)
        ensures
            *self is Farm ==> r == Option::Some(
                ResourceProduction(
                    ProductionTimer { elapsed_ms: 0, interval_ms: FARM_PRODUCTION_INTERVAL_MS },
                    Item::Food,
                ),
            ),
            !(*self is Farm) ==> r is None,
    {
        match self {
            BuildingType::Farm => Option::Some(
                ResourceProduction(
                    ProductionTimer { elapsed_ms: 0, interval_ms: FARM_PRODUCTION_INTERVAL_MS },
                    Item::Food,
                ),
            ),
            _ => Option::None,
        }
    }
}

/// A finished building of some kind.
#[derive(Clone, Copy, PartialEq, Eq, Structural, Debug)]
pub struct Building(pub BuildingType);

/// A repeating timer measured in milliseconds.
#[derive(Clone, Copy, PartialEq, Eq, Structural, Debug)]
pub struct ProductionTimer {
    /// Time accumulated since the last elapse.
    pub elapsed_ms: u64,
    /// Length of one period; at least one millisecond.
    pub interval_ms: u64,
}

/// The timer's accumulated time stays below its period.
pub open spec fn timer_wf(t: ProductionTimer) -> bool {
    &&& 1 <= t.interval_ms
    &&& t.elapsed_ms < t.interval_ms
}

/// Whether advancing the timer by `delta_ms` completes its period.
pub open spec fn timer_fires(t: ProductionTimer, delta_ms: u64) -> bool {
    t.elapsed_ms + delta_ms >= t.interval_ms
}

/// The timer after advancing by `delta_ms`; a repeating timer wraps.
pub open spec fn ticked(t: ProductionTimer, delta_ms: u64) -> ProductionTimer {
    ProductionTimer {
        elapsed_ms: ((t.elapsed_ms + delta_ms) % (t.interval_ms as int)) as u64,
        interval_ms: t.interval_ms,
    }
}

impl ProductionTimer {
    /// Advances the timer and says whether its period completed.
    pub fn tick(&mut self, delta_ms: u64) -> (fired: bool)
        requires
            timer_wf(*old(self)),
        ensures
            timer_wf(*final(self)),
            *final(self) == ticked(*old(self), delta_ms),
            fired == timer_fires(*old(self), delta_ms),
    {
        let total: u128 = self.elapsed_ms as u128 + delta_ms as u128;
        let fired = total >= self.interval_ms as u128;
        let wrapped = (total % (self.interval_ms as u128)) as u64;
        self.elapsed_ms = wrapped;
        fired
    }
}

/// A building behaviour that yields one unit of an item every time its timer
/// elapses.
#[derive(Clone, Copy, PartialEq, Eq, Structural, Debug)]
pub struct ResourceProduction(pub ProductionTimer, pub Item);

/// Every producer's timer is well formed.
pub open spec fn producers_wf(ps: Seq<ResourceProduction>) -> bool {
    forall|i: int| 0 <= i < ps.len() ==> timer_wf((#[trigger] ps[i]).0)
}

/// How many of the first `n` producers yield item `k` when all are advanced
/// by `delta_ms`.
pub open spec fn produced_prefix(
    ps: Seq<ResourceProduction>,
    delta_ms: u64,
    k: int,
    n: int,
) -> int
    decreases n,
{
    if n <= 0 {
        0
    } else {
        produced_prefix(ps, delta_ms, k, n - 1) + if timer_fires(ps[n - 1].0, delta_ms)
            && item_index(ps[n - 1].1) == k {
            1int
        } else {
            0int
        }
    }
}

/// How many producers yield item `k` when all are advanced by `delta_ms`.
pub open spec fn produced_count(ps: Seq<ResourceProduction>, delta_ms: u64, k: int) -> int {
    produced_prefix(ps, delta_ms, k, ps.len() as int)
}

proof fn lemma_produced_prefix_bounds(ps: Seq<ResourceProduction>, delta_ms: u64, k: int, n: int)
    requires
        0 <= n <= ps.len(),
    ensures
        0 <= produced_prefix(ps, delta_ms, k, n) <= n,
    decreases n,
{
    if n > 0 {
        lemma_produced_prefix_bounds(ps, delta_ms, k, n - 1);
    }
}

/// Advances every producer by `delta_ms` and credits everything produced this
/// pass to the first inventory, the design's single global sink; with no
/// inventory present the yield is dropped.
pub fn produce_resources(
    producers: &mut Vec<ResourceProduction>,
    inventories: &mut Vec<Inventory>,
    delta_ms: u64,
)
    requires
        producers_wf(old(producers)@),
        invs_wf(views(old(inventories)@)),
    ensures
        producers_wf(final(producers)@),
        final(producers)@.len() == old(producers)@.len(),
        forall|i: int|
            0 <= i < old(producers)@.len() ==> final(producers)@[i] == ResourceProduction(
                ticked((#[trigger] old(producers)@[i]).0, delta_ms),
                old(producers)@[i].1,
            ),
        invs_wf(views(final(inventories)@)),
        final(inventories)@.len() == old(inventories)@.len(),
        old(inventories)@.len() == 0 ==> views(final(inventories)@) == views(old(inventories)@),
        old(inventories)@.len() > 0 ==> views(final(inventories)@) == views(
            old(inventories)@,
        ).update(
            0,
            Seq::new(
                ITEM_KINDS as nat,
                |k: int| sat_add(
                    views(old(inventories)@)[0][k],
                    produced_count(old(producers)@, delta_ms, k) as u64,
                ),
            ),
        ),
{
    let ghost ps0 = producers@;
    let n = producers.len();
    let mut tally: Vec<u64> = Vec::new();
    let mut k: usize = 0;
    while k < ITEM_KINDS
        invariant
            k <= ITEM_KINDS,
            tally@.len() == k,
            forall|m: int| 0 <= m < k ==> tally@[m] == 0,
        decreases ITEM_KINDS - k,
    {
        tally.push(0);
        k = k + 1;
    }
    let mut i: usize = 0;
    while i < n
        invariant
            i <= n,
            n == producers@.len(),
            ps0.len() == n,
            producers_wf(ps0),
            tally@.len() == ITEM_KINDS,
            forall|j: int| i <= j < n ==> producers@[j] == ps0[j],
            forall|j: int|
                0 <= j < i ==> producers@[j] == ResourceProduction(
                    ticked((#[trigger] ps0[j]).0, delta_ms),
                    ps0[j].1,
                ),
            forall|m: int|
                0 <= m < ITEM_KINDS ==> tally@[m] == produced_prefix(ps0, delta_ms, m, i as int),
            forall|m: int| 0 <= m < ITEM_KINDS ==> tally@[m] <= i,
        decreases n - i,
    {
        let mut producer = producers[i];
        proof {
            assert(producer == ps0[i as int]);
            assert(timer_wf(ps0[i as int].0));
        }
        let fired = producer.0.tick(delta_ms);
        producers[i] = producer;
        if fired {
            let m = producer.1.index();
            tally[m] = tally[m] + 1;
        }
        i = i + 1;
    }
    proof {
        assert forall|j: int| 0 <= j < n implies timer_wf((#[trigger] producers@[j]).0) by {
            assert(producers@[j] == ResourceProduction(ticked(ps0[j].0, delta_ms), ps0[j].1));
            assert(timer_wf(ps0[j].0));
        }
    }
    if inventories.len() > 0 {
        let ghost vs0 = views(inventories@);
        let mut k: usize = 0;
        while k < ITEM_KINDS
            invariant
                k <= ITEM_KINDS,
                inventories@.len() == vs0.len(),
                vs0.len() > 0,
                invs_wf(vs0),
                tally@.len() == ITEM_KINDS,
                forall|m: int|
                    0 <= m < ITEM_KINDS ==> tally@[m] == produced_prefix(
                        ps0,
                        delta_ms,
                        m,
                        ps0.len() as int,
                    ),
                forall|j: int| 1 <= j < vs0.len() ==> views(inventories@)[j] == vs0[j],
                views(inventories@)[0].len() == ITEM_KINDS,
                forall|m: int|
                    0 <= m < k ==> views(inventories@)[0][m] == sat_add(
                        vs0[0][m],
                        produced_count(ps0, delta_ms, m) as u64,
                    ),
                forall|m: int| k <= m < ITEM_KINDS ==> views(inventories@)[0][m] == vs0[0][m],
            decreases ITEM_KINDS - k,
        {
            let ghost pre = inventories@;
            proof {
                assert(views(pre)[0] == pre[0]@);
                lemma_produced_prefix_bounds(ps0, delta_ms, k as int, ps0.len() as int);
            }
            let amount = tally[k];
            inventories[0].add(Item::from_index(k), amount);
            k = k + 1;
        }
        proof {
            assert forall|m: int| 0 <= m < ITEM_KINDS implies 0 <= #[trigger] produced_count(
                ps0,
                delta_ms,
                m,
            ) <= ps0.len() by {
                lemma_produced_prefix_bounds(ps0, delta_ms, m, ps0.len() as int);
            }
            let target = Seq::new(
                ITEM_KINDS as nat,
                |m: int| sat_add(vs0[0][m], produced_count(ps0, delta_ms, m) as u64),
            );
            assert(views(inventories@)[0] =~= target);
            assert(views(inventories@) =~= vs0.update(0, target));
        }
    }
}

/// A confirmed placement, queued for the deferred spawn pass: which parent
/// the new building attaches to, where, and what kind it is.
#[derive(Clone, Copy, PartialEq, Eq, Structural, Debug)]
pub struct BuildEvent {
    /// Entity id of the parent the new building becomes a child of.
    pub child_of: u64,
    /// Offset of the new building relative to its parent.
    pub offset: Vec2i,
    /// What kind of building to spawn.
    pub building_type: BuildingType,
}

/// Turns a confirm input into a build event: snaps to the nearest eligible
/// attachment point; with no eligible point the confirm is a no-op. Returns
/// the index of the consumed candidate together with the event.
pub fn confirm_placement(
    cursor: Vec2i,
    candidates: &Vec<BuildCandidate>,
    building_type: BuildingType,
) -> (r: Option<(usize, BuildEvent)>)
    requires
        in_world_bounds(cursor),
        candidates_in_bounds(candidates@),
    ensures
        match r {
            Option::None => is_nearest_choice(cursor, candidates@, 1600, Option::<usize>::None),
            Option::Some(chosen) => {
                &&& is_nearest_choice(cursor, candidates@, 1600, Option::Some(chosen.0))
                &&& chosen.1 == (BuildEvent {
                    child_of: candidates@[chosen.0 as int].parent,
                    offset: candidates@[chosen.0 as int].offset,
                    building_type,
                })
            },
        },
{
    match find_nearest_build_location(cursor, candidates) {
        Option::Some(i) => {
            let candidate = candidates[i];
            Option::Some(
                (
                    i,
                    BuildEvent {
                        child_of: candidate.parent,
                        offset: candidate.offset,
                        building_type,
                    },
                ),
            )
        },
        Option::None => Option::None,
    }
}

/// Everything a handled build event spawns: the building entity, its own
/// attachment points, its production behaviour, and its storage inventory.
pub struct BuildingSpawn {
    /// Entity id of the parent to attach the building to.
    pub parent: u64,
    /// Offset of the building relative to its parent.
    pub offset: Vec2i,
    /// The building itself.
    pub building: Building,
    /// Attachment points the building exposes, relative to the building.
    pub build_locations: Vec<BuildLocation>,
    /// Periodic production the building carries, if any.
    pub production: Option<ResourceProduction>,
    /// The empty inventory a storage building starts with.
    pub inventory: Option<Inventory>,
}

/// Handles one queued build event: describes the building to spawn, or drops
/// the event when its parent entity no longer exists (despawn races are
/// expected, not fatal).
pub fn on_build(ev: &BuildEvent, parent_exists: bool) -> (r: Option<BuildingSpawn>)
    ensures
        parent_exists <==> r is Some,
        match r {
            Option::Some(spawn) => {
                &&& spawn.parent == ev.child_of
                &&& spawn.offset == ev.offset
                &&& spawn.building == Building(ev.building_type)
                &&& spawn.build_locations@.map_values(|loc: BuildLocation| loc.0)
                    == ev.building_type.build_locations_spec()
                &&& spawn.production == (if ev.building_type is Farm {
                    Option::Some(
                        ResourceProduction(
                            ProductionTimer {
                                elapsed_ms: 0,
                                interval_ms: FARM_PRODUCTION_INTERVAL_MS,
                            },
                            Item::Food,
                        ),
                    )
                } else {
                    Option::<ResourceProduction>::None
                })
                &&& (ev.building_type is Storage ==> (spawn.inventory matches Option::Some(inv) && (
                inv.wf() && forall|m: int| 0 <= m < ITEM_KINDS ==> inv@[m] == 0)))
                &&& (!(ev.building_type is Storage) ==> spawn.inventory is None)
            },
            Option::None => true,
        },
{
    if !parent_exists {
        return Option::None;
    }
    let building_type = ev.building_type;
    let inventory = match building_type {
        BuildingType::Storage => Option::Some(Inventory::new()),
        _ => Option::None,
    };
    let offsets = building_type.get_build_locations();
    let mut build_locations: Vec<BuildLocation> = Vec::new();
    let mut i: usize = 0;
    while i < offsets.len()
        invariant
            i <= offsets@.len(),
            build_locations@.len() == i,
            forall|j: int| 0 <= j < i ==> (#[trigger] build_locations@[j]).0 == offsets@[j],
        decreases offsets@.len() - i,
    {
        build_locations.push(BuildLocation(offsets[i]));
        i = i + 1;
    }
    proof {
        assert(build_locations@.map_values(|loc: BuildLocation| loc.0) =~= offsets@);
    }
    Option::Some(
        BuildingSpawn {
            parent: ev.child_of,
            offset: ev.offset,
            building: Building(building_type),
            build_locations,
            production: building_type.get_resource_production(),
            inventory,
        },
    )
}

} // verus!
