//! Resource kinds and per-entity inventories.
//!
//! An [`Inventory`] maps every [`Item`] kind to a non-negative count. Counts
//! never go negative and transfers clamp instead of losing or duplicating
//! units.

use vstd::prelude::*;

verus! {

/// Number of resource kinds a contract or an inventory can speak of.
pub const ITEM_KINDS: usize = 9;

/// A kind of resource that can be produced, stored, required or rewarded.
#[derive(Clone, Copy, PartialEq, Eq, Structural, Debug, Hash)]
pub enum Item {
    Food,
    Water,
    Wood,
    Clay,
    Brick,
    Metal,
    Glass,
    Bullet,
    Money,
}

/// Position of an item kind in an inventory's count table.
pub open spec fn item_index(item: Item) -> int {
    match item {
        Item::Food => 0,
        Item::Water => 1,
        Item::Wood => 2,
        Item::Clay => 3,
        Item::Brick => 4,
        Item::Metal => 5,
        Item::Glass => 6,
        Item::Bullet => 7,
        Item::Money => 8,
    }
}

/// Display name of an item kind.
pub open spec fn item_name(item: Item) -> Seq<char> {
    match item {
        Item::Food => "Food"@,
        Item::Water => "Water"@,
        Item::Wood => "Wood"@,
        Item::Clay => "Clay"@,
        Item::Brick => "Brick"@,
        Item::Metal => "Metal"@,
        Item::Glass => "Glass"@,
        Item::Bullet => "Bullet"@,
        Item::Money => "Money"@,
    }
}

impl Item {
    /// Index of this kind in an inventory's count table.
    pub fn index(&self) -> (i: usize)
        ensures
            i == item_index(*self),
            i < ITEM_KINDS,
    {
        match self {
            Item::Food => 0,
            Item::Water => 1,
            Item::Wood => 2,
            Item::Clay => 3,
            Item::Brick => 4,
            Item::Metal => 5,
            Item::Glass => 6,
            Item::Bullet => 7,
            Item::Money => 8,
        }
    }

    /// The item kind sitting at a given table index; inverse of [`Item::index`].
    pub fn from_index(i: usize) -> (item: Item)
        requires
            i < ITEM_KINDS,
        ensures
            item_index(item) == i,
    {
        if i == 0 {
            Item::Food
        } else if i == 1 {
            Item::Water
        } else if i == 2 {
            Item::Wood
        } else if i == 3 {
            Item::Clay
        } else if i == 4 {
            Item::Brick
        } else if i == 5 {
            Item::Metal
        } else if i == 6 {
            Item::Glass
        } else if i == 7 {
            Item::Bullet
        } else {
            Item::Money
        }
    }

    /// Display name of the item kind.
    pub fn name(&self) -> (r: &'static str)
        ensures
            r@ == item_name(*self),
    {
        match self {
            Item::Food => "Food",
            Item::Water => "Water",
            Item::Wood => "Wood",
            Item::Clay => "Clay",
            Item::Brick => "Brick",
            Item::Metal => "Metal",
            Item::Glass => "Glass",
            Item::Bullet => "Bullet",
            Item::Money => "Money",
        }
    }
}

/// A table of resource counts, one per [`Item`] kind, attached to a storage
/// building or another resource-holding entity.
#[derive(Clone, Debug)]
pub struct Inventory {
    counts: Vec<u64>,
}

impl View for Inventory {
    type V = Seq<u64>;

    closed spec fn view(&self) -> Seq<u64> {
        self.counts@
    }
}

/// Addition on counts, saturating at the largest representable count.
pub open spec fn sat_add(a: u64, b: u64) -> u64 {
    if a + b > u64::MAX {
        u64::MAX
    } else {
        (a + b) as u64
    }
}

/// How many units move from a count of `from` into a count of `into` when the
/// receiving side is capped at `cap` units per item.
pub open spec fn clamped_transfer(into: u64, from: u64, cap: u64) -> int {
    let space = if into >= cap {
        0int
    } else {
        cap - into
    };
    if from <= space {
        from as int
    } else {
        space
    }
}

impl Inventory {
    /// An inventory is well formed when it has one count per item kind.
    pub open spec fn wf(&self) -> bool {
        self@.len() == ITEM_KINDS
    }

    /// An empty inventory: every count zero.
    pub fn new() -> (inv: Inventory)
        ensures
            inv.wf(),
            forall|i: int| 0 <= i < ITEM_KINDS ==> inv@[i] == 0,
    {
        let mut counts: Vec<u64> = Vec::new();
        let mut k: usize = 0;
        while k < ITEM_KINDS
            invariant
                counts@.len() == k,
                k <= ITEM_KINDS,
                forall|i: int| 0 <= i < k ==> counts@[i] == 0,
            decreases ITEM_KINDS - k,
        {
            counts.push(0);
            k = k + 1;
        }
        Inventory { counts }
    }

    /// The stored count of one item kind.
    pub fn get(&self, item: Item) -> (count: u64)
        requires
            self.wf(),
        ensures
            count == self@[item_index(item)],
    {
        self.counts[item.index()]
    }

    /// Credits `amount` units of `item`, saturating at the largest count.
    pub fn add(&mut self, item: Item, amount: u64)
        requires
            old(self).wf(),
        ensures
            final(self).wf(),
            final(self)@ == old(self)@.update(
                item_index(item),
                sat_add(old(self)@[item_index(item)], amount),
            ),
    {
        let i = item.index();
        let held = self.counts[i];
        self.counts[i] = held.saturating_add(amount);
    }

    /// Removes up to `amount` units of `item`, capped at what is held, and
    /// says how many units actually left.
    pub fn take_upto(&mut self, item: Item, amount: u64) -> (taken: u64)
        requires
            old(self).wf(),
        ensures
            final(self).wf(),
            taken == if old(self)@[item_index(item)] <= amount {
                old(self)@[item_index(item)]
            } else {
                amount
            },
            final(self)@ == old(self)@.update(
                item_index(item),
                (old(self)@[item_index(item)] - taken) as u64,
            ),
    {
        let i = item.index();
        let held = self.counts[i];
        let taken = if held <= amount {
            held
        } else {
            amount
        };
        self.counts[i] = held - taken;
        taken
    }

    /// True when every count is zero.
    pub fn is_empty(&self) -> (r: bool)
        requires
            self.wf(),
        ensures
            r <==> (forall|i: int| 0 <= i < ITEM_KINDS ==> self@[i] == 0),
    {
        let mut k: usize = 0;
        while k < ITEM_KINDS
            invariant
                self.wf(),
                k <= ITEM_KINDS,
                forall|i: int| 0 <= i < k ==> self@[i] == 0,
            decreases ITEM_KINDS - k,
        {
            if self.counts[k] != 0 {
                return false;
            }
            k = k + 1;
        }
        true
    }

    /// Moves as much of `other`'s contents into `self` as fits under a
    /// per-item cap of `max_stack_size`; what does not fit stays in `other`.
    ///
    /// No unit is lost or duplicated: for every item kind, the two final
    /// counts sum to the two starting counts.
    pub fn add_other(&mut self, other: &mut Inventory, max_stack_size: u64)
        requires
            old(self).wf(),
            old(other).wf(),
        ensures
            final(self).wf(),
            final(other).wf(),
            forall|i: int|
                0 <= i < ITEM_KINDS ==> final(self)@[i] == old(self)@[i] + clamped_transfer(
                    old(self)@[i],
                    old(other)@[i],
                    max_stack_size,
                ),
            forall|i: int|
                0 <= i < ITEM_KINDS ==> final(other)@[i] == old(other)@[i] - clamped_transfer(
                    old(self)@[i],
                    old(other)@[i],
                    max_stack_size,
                ),
            forall|i: int|
                0 <= i < ITEM_KINDS ==> final(self)@[i] + final(other)@[i] == old(self)@[i] + old(
                    other,
                )@[i],
    {
        let mut k: usize = 0;
        while k < ITEM_KINDS
            invariant
                self.wf(),
                other.wf(),
                k <= ITEM_KINDS,
                forall|i: int|
                    k <= i < ITEM_KINDS ==> self@[i] == old(self)@[i] && other@[i] == old(
                        other,
                    )@[i],
                forall|i: int|
                    0 <= i < k ==> self@[i] == old(self)@[i] + clamped_transfer(
                        old(self)@[i],
                        old(other)@[i],
                        max_stack_size,
                    ),
                forall|i: int|
                    0 <= i < k ==> other@[i] == old(other)@[i] - clamped_transfer(
                        old(self)@[i],
                        old(other)@[i],
                        max_stack_size,
                    ),
            decreases ITEM_KINDS - k,
        {
            let held = self.counts[k];
            let offered = other.counts[k];
            let space = if held >= max_stack_size {
                0
            } else {
                max_stack_size - held
            };
            let moved = if offered <= space {
                offered
            } else {
                space
            };
            self.counts[k] = held + moved;
            other.counts[k] = offered - moved;
            k = k + 1;
        }
    }
}

/// The mathematical contents of a row of inventories.
pub open spec fn views(invs: Seq<Inventory>) -> Seq<Seq<u64>> {
    invs.map_values(|inv: Inventory| inv@)
}

/// Every inventory in the row has one count per item kind.
pub open spec fn invs_wf(vs: Seq<Seq<u64>>) -> bool {
    forall|i: int| 0 <= i < vs.len() ==> (#[trigger] vs[i]).len() == ITEM_KINDS
}

impl Default for Inventory {
    /// Same as [`Inventory::new`]: every count zero.
    fn default() -> (inv: Inventory)
        ensures
            inv.wf(),
            forall|i: int| 0 <= i < ITEM_KINDS ==> inv@[i] == 0,
    {
        Inventory::new()
    }
}

} // verus!
