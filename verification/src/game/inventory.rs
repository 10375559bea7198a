//! Inventory System
//!
//! Item management and inventory for the player.
//!
//! An inventory is a row of slots; each slot is empty or holds a stack of one
//! item. Its abstract value is the sequence of slots, each seen as
//! `Option<(item id, quantity)>`.

use vstd::prelude::*;

verus! {

/// Item rarity
#[derive(Debug, Clone, Copy, PartialEq, Eq, Hash, Structural)]
pub enum ItemRarity {
    Common,
    Uncommon,
    Rare,
    Epic,
    Legendary,
}

/// Item types
#[derive(Debug, Clone, Copy, PartialEq, Eq, Hash, Structural)]
pub enum ItemType {
    Weapon,
    Armor,
    Consumable,
    KeyItem,
    Material,
    Currency,
}

/// Item definition (the numeric effect table of an item is kept beside it by the game).
#[derive(Debug, Clone)]
pub struct Item {
    pub id: String,
    pub name: String,
    pub description: String,
    pub item_type: ItemType,
    pub rarity: ItemRarity,
    pub max_stack: u32,
    pub value: u32,
    pub icon: String,
}

impl Item {
    pub fn new(id: &str, name: &str, item_type: ItemType) -> (item: Self)
        ensures
            item.id@ == id@,
            item.name@ == name@,
            item.description@ == Seq::<char>::empty(),
            item.item_type == item_type,
            item.rarity == ItemRarity::Common,
            item.max_stack == 99,
            item.value == 0,
            item.icon@ == Seq::<char>::empty(),
    {
        Item {
            id: id.to_owned(),
            name: name.to_owned(),
            description: String::new(),
            item_type,
            rarity: ItemRarity::Common,
            max_stack: 99,
            value: 0,
            icon: String::new(),
        }
    }

    /// An item stacks when a slot can hold more than one of it.
    pub fn is_stackable(&self) -> (b: bool)
        ensures
            b == (self.max_stack > 1),
    {
        self.max_stack > 1
    }

    pub fn with_rarity(self, rarity: ItemRarity) -> (item: Self)
        ensures
            item.rarity == rarity,
            item.id == self.id,
            item.name == self.name,
            item.description == self.description,
            item.item_type == self.item_type,
            item.max_stack == self.max_stack,
            item.value == self.value,
            item.icon == self.icon,
    {
        let mut item = self;
        item.rarity = rarity;
        item
    }
}

/// Inventory slot
#[derive(Debug, Clone)]
pub struct InventorySlot {
    pub item_id: String,
    pub quantity: u32,
}

impl InventorySlot {
    pub fn new(item_id: &str, quantity: u32) -> (slot: Self)
        ensures
            slot.item_id@ == item_id@,
            slot.quantity == quantity,
    {
        InventorySlot { item_id: item_id.to_owned(), quantity }
    }
}

/// The abstract value of one slot: empty, or (item id, quantity).
pub open spec fn slot_view(slot: Option<InventorySlot>) -> Option<(Seq<char>, u32)> {
    match slot {
        Some(s) => Some((s.item_id@, s.quantity)),
        None => None,
    }
}

/// The abstract value of a row of slots.
pub open spec fn slots_view(slots: Seq<Option<InventorySlot>>) -> Seq<Option<(Seq<char>, u32)>> {
    slots.map_values(|s: Option<InventorySlot>| slot_view(s))
}

/// How many of item `id` the slots hold in total.
pub open spec fn count_of(s: Seq<Option<(Seq<char>, u32)>>, id: Seq<char>) -> nat
    decreases s.len(),
{
    if s.len() == 0 {
        0
    } else {
        count_of(s.drop_last(), id) + match s.last() {
            Some((k, q)) => if k == id {
                q as nat
            } else {
                0
            },
            None => 0,
        }
    }
}

/// How many slots are occupied.
pub open spec fn used_count(s: Seq<Option<(Seq<char>, u32)>>) -> nat
    decreases s.len(),
{
    if s.len() == 0 {
        0
    } else {
        used_count(s.drop_last()) + if s.last() is Some {
            1nat
        } else {
            0nat
        }
    }
}

/// How many slots are empty.
pub open spec fn empty_count(s: Seq<Option<(Seq<char>, u32)>>) -> nat
    decreases s.len(),
{
    if s.len() == 0 {
        0
    } else {
        empty_count(s.drop_last()) + if s.last() is None {
            1nat
        } else {
            0nat
        }
    }
}

/// Free room left in the stacks of item `id`, when each stack holds at most `max`.
pub open spec fn stack_room(s: Seq<Option<(Seq<char>, u32)>>, id: Seq<char>, max: nat) -> int
    decreases s.len(),
{
    if s.len() == 0 {
        0
    } else {
        stack_room(s.drop_last(), id, max) + match s.last() {
            Some((k, q)) => if k == id {
                max - q
            } else {
                0
            },
            None => 0,
        }
    }
}

/// Every stack of item `id` holds at most `max`.
pub open spec fn stacks_within(s: Seq<Option<(Seq<char>, u32)>>, id: Seq<char>, max: nat) -> bool {
    forall|i: int|
        0 <= i < s.len() ==> match #[trigger] s[i] {
            Some((k, q)) => k == id ==> q <= max,
            None => true,
        }
}

pub open spec fn min_nat(a: nat, b: nat) -> nat {
    if a <= b {
        a
    } else {
        b
    }
}

/// `a - b`, or 0 where `b` exceeds `a`.
pub open spec fn sat_sub(a: int, b: int) -> nat {
    if a >= b {
        (a - b) as nat
    } else {
        0
    }
}

/// One step of topping up existing stacks: the slot, and how many are still to place.
pub open spec fn stack_step(slot: Option<(Seq<char>, u32)>, id: Seq<char>, max: nat, rem: nat) -> (
    Option<(Seq<char>, u32)>,
    nat,
) {
    match slot {
        Some((k, q)) => if k == id && rem > 0 {
            let add = min_nat(rem, (max - q) as nat);
            (Some((k, (q + add) as u32)), (rem - add) as nat)
        } else {
            (slot, rem)
        },
        None => (slot, rem),
    }
}

/// Topping up, slot by slot from the first, the stacks of item `id` with `rem` items.
pub open spec fn stack_pass(s: Seq<Option<(Seq<char>, u32)>>, id: Seq<char>, max: nat, rem: nat) -> (
    Seq<Option<(Seq<char>, u32)>>,
    nat,
)
    decreases s.len(),
{
    if s.len() == 0 {
        (s, rem)
    } else {
        let p = stack_pass(s.drop_last(), id, max, rem);
        let x = stack_step(s.last(), id, max, p.1);
        (p.0.push(x.0), x.1)
    }
}

/// A stack that the topping up reaches while items are left holds at most `max`.
pub open spec fn stack_pass_safe(s: Seq<Option<(Seq<char>, u32)>>, id: Seq<char>, max: nat, rem: nat) -> bool {
    forall|i: int|
        0 <= i < s.len() ==> match #[trigger] s[i] {
            Some((k, q)) => (k == id && stack_pass(s.take(i), id, max, rem).1 > 0) ==> q <= max,
            None => true,
        }
}

/// One step of placing items into empty slots.
pub open spec fn fill_step(slot: Option<(Seq<char>, u32)>, id: Seq<char>, max: nat, rem: nat) -> (
    Option<(Seq<char>, u32)>,
    nat,
) {
    match slot {
        None => if rem > 0 {
            let add = min_nat(rem, max);
            (Some((id, add as u32)), (rem - add) as nat)
        } else {
            (slot, rem)
        },
        Some(_) => (slot, rem),
    }
}

/// Placing `rem` items of `id` into the empty slots, from the first.
pub open spec fn fill_pass(s: Seq<Option<(Seq<char>, u32)>>, id: Seq<char>, max: nat, rem: nat) -> (
    Seq<Option<(Seq<char>, u32)>>,
    nat,
)
    decreases s.len(),
{
    if s.len() == 0 {
        (s, rem)
    } else {
        let p = fill_pass(s.drop_last(), id, max, rem);
        let x = fill_step(s.last(), id, max, p.1);
        (p.0.push(x.0), x.1)
    }
}

/// Adding `qty` of item `id` (stacks of at most `max`): the new slots and the quantity left over.
pub open spec fn add_result(s: Seq<Option<(Seq<char>, u32)>>, id: Seq<char>, max: nat, qty: nat) -> (
    Seq<Option<(Seq<char>, u32)>>,
    nat,
) {
    let topped = if max > 1 {
        stack_pass(s, id, max, qty)
    } else {
        (s, qty)
    };
    fill_pass(topped.0, id, max, topped.1)
}

/// One step of taking items of `id` out of the slots; an emptied stack frees its slot.
pub open spec fn remove_step(slot: Option<(Seq<char>, u32)>, id: Seq<char>, rem: nat) -> (
    Option<(Seq<char>, u32)>,
    nat,
) {
    match slot {
        Some((k, q)) => if k == id && rem > 0 {
            let take = min_nat(rem, q as nat);
            if q - take == 0 {
                (None, (rem - take) as nat)
            } else {
                (Some((k, (q - take) as u32)), (rem - take) as nat)
            }
        } else {
            (slot, rem)
        },
        None => (slot, rem),
    }
}

/// Taking up to `rem` items of `id` out of the slots, from the first.
pub open spec fn remove_pass(s: Seq<Option<(Seq<char>, u32)>>, id: Seq<char>, rem: nat) -> (
    Seq<Option<(Seq<char>, u32)>>,
    nat,
)
    decreases s.len(),
{
    if s.len() == 0 {
        (s, rem)
    } else {
        let p = remove_pass(s.drop_last(), id, rem);
        let x = remove_step(s.last(), id, p.1);
        (p.0.push(x.0), x.1)
    }
}

/// Whether `qty` of item `id` fit: what the stacks cannot take needs enough empty slots.
pub open spec fn has_space_spec(s: Seq<Option<(Seq<char>, u32)>>, id: Seq<char>, max: nat, qty: nat) -> bool {
    let left = if max > 1 {
        sat_sub(qty as int, stack_room(s, id, max))
    } else {
        qty
    };
    if max == 0 {
        left == 0
    } else {
        (left + max - 1) / (max as int) <= empty_count(s)
    }
}

/// Player inventory
#[derive(Debug, Clone)]
pub struct Inventory {
    pub slots: Vec<Option<InventorySlot>>,
    pub max_slots: usize,
    pub gold: u32,
}

impl Inventory {
    /// The slots, as abstract values.
    pub open spec fn view_slots(&self) -> Seq<Option<(Seq<char>, u32)>> {
        slots_view(self.slots@)
    }

    pub fn new(max_slots: usize) -> (inv: Self)
        ensures
            inv.view_slots() == Seq::new(max_slots as nat, |i: int| None::<(Seq<char>, u32)>),
            inv.max_slots == max_slots,
            inv.gold == 0,
    {
        let mut slots: Vec<Option<InventorySlot>> = Vec::new();
        let mut i: usize = 0;
        while i < max_slots
            invariant
                i <= max_slots,
                slots@.len() == i,
                forall|j: int| 0 <= j < i ==> #[trigger] slots@[j] is None,
            decreases max_slots - i,
        {
            slots.push(None);
            i = i + 1;
        }
        let inv = Inventory { slots, max_slots, gold: 0 };
        assert(inv.view_slots() =~= Seq::new(max_slots as nat, |i: int| None::<(Seq<char>, u32)>));
        inv
    }

    /// Add an item to the inventory; returns the quantity that did not fit.
    ///
    /// Existing stacks of the item are topped up first (when it stacks), in slot
    /// order; what is left goes into empty slots, in slot order.
    #[verifier::rlimit(60)]
    #[verifier::spinoff_prover]
    pub fn add_item(&mut self, item: &Item, quantity: u32) -> (left: u32)
        requires
            item.max_stack > 1 ==> stack_pass_safe(
                old(self).view_slots(),
                item.id@,
                item.max_stack as nat,
                quantity as nat,
            ),
        ensures
            (final(self).view_slots(), left as nat) == add_result(
                old(self).view_slots(),
                item.id@,
                item.max_stack as nat,
                quantity as nat,
            ),
            left <= quantity,
            final(self).view_slots().len() == old(self).view_slots().len(),
            count_of(final(self).view_slots(), item.id@) + left == count_of(old(self).view_slots(), item.id@)
                + quantity,
            forall|k: Seq<char>|
                k != item.id@ ==> #[trigger] count_of(final(self).view_slots(), k) == count_of(
                    old(self).view_slots(),
                    k,
                ),
            item.max_stack > 1 ==> stacks_within(old(self).view_slots(), item.id@, item.max_stack as nat) ==> (
            left == 0 <==> has_space_spec(
                old(self).view_slots(),
                item.id@,
                item.max_stack as nat,
                quantity as nat,
            )),
            item.max_stack <= 1 ==> (left == 0 <==> has_space_spec(
                old(self).view_slots(),
                item.id@,
                item.max_stack as nat,
                quantity as nat,
            )),
            final(self).max_slots == old(self).max_slots,
            final(self).gold == old(self).gold,
    {
        let ghost s0 = self.view_slots();
        let ghost id = item.id@;
        let ghost max = item.max_stack as nat;
        let mut remaining = quantity;

        // Try to stack with existing items
        if item.is_stackable() {
            let mut i: usize = 0;
            while i < self.slots.len()
                invariant
                    i <= self.slots@.len(),
                    self.slots@.len() == s0.len(),
                    id == item.id@,
                    max == item.max_stack as nat,
                    max > 1,
                    stack_pass_safe(s0, id, max, quantity as nat),
                    (self.view_slots().take(i as int), remaining as nat) == stack_pass(
                        s0.take(i as int),
                        id,
                        max,
                        quantity as nat,
                    ),
                    forall|j: int| i <= j < s0.len() ==> #[trigger] self.view_slots()[j] == s0[j],
                    self.max_slots == old(self).max_slots,
                    self.gold == old(self).gold,
                decreases self.slots@.len() - i,
            {
                let ghost before = self.view_slots();
                proof {
                    assert(s0.take(i + 1).drop_last() =~= s0.take(i as int));
                    assert(s0.take(i + 1).last() == s0[i as int]);
                    assert(before[i as int] == s0[i as int]);
                }
                if remaining > 0 {
                    let mut new_qty: Option<u32> = None;
                    match &self.slots[i] {
                        Some(inv_slot) => {
                            if inv_slot.item_id == item.id {
                                proof {
                                    assert(s0[i as int] == Some((inv_slot.item_id@, inv_slot.quantity)));
                                }
                                let space = item.max_stack - inv_slot.quantity;
                                let to_add = if remaining < space {
                                    remaining
                                } else {
                                    space
                                };
                                new_qty = Some(inv_slot.quantity + to_add);
                                remaining = remaining - to_add;
                            }
                        },
                        None => {},
                    }
                    match new_qty {
                        Some(q) => {
                            let slot = InventorySlot { item_id: item.id.clone(), quantity: q };
                            self.slots.set(i, Some(slot));
                        },
                        None => {},
                    }
                }
                proof {
                    assert(self.view_slots().take(i + 1) =~= before.take(i as int).push(
                        self.view_slots()[i as int],
                    ));
                    assert forall|j: int| i < j < s0.len() implies #[trigger] self.view_slots()[j] == s0[j] by {
                        assert(self.view_slots()[j] == slot_view(self.slots@[j]));
                        assert(before[j] == s0[j]);
                    }
                }
                i = i + 1;
            }
            proof {
                assert(s0.take(s0.len() as int) =~= s0);
                assert(self.view_slots().take(s0.len() as int) =~= self.view_slots());
            }
        }
        let ghost s1 = self.view_slots();
        let ghost r1 = remaining as nat;
        proof {
            if max <= 1 {
                assert(s1 =~= s0);
            }
        }

        // Add to empty slots
        let mut i: usize = 0;
        while i < self.slots.len()
            invariant
                i <= self.slots@.len(),
                self.slots@.len() == s1.len(),
                id == item.id@,
                max == item.max_stack as nat,
                (self.view_slots().take(i as int), remaining as nat) == fill_pass(
                    s1.take(i as int),
                    id,
                    max,
                    r1,
                ),
                forall|j: int| i <= j < s1.len() ==> #[trigger] self.view_slots()[j] == s1[j],
                self.max_slots == old(self).max_slots,
                self.gold == old(self).gold,
            decreases self.slots@.len() - i,
        {
            let ghost before = self.view_slots();
            proof {
                assert(s1.take(i + 1).drop_last() =~= s1.take(i as int));
                assert(s1.take(i + 1).last() == s1[i as int]);
                assert(before[i as int] == s1[i as int]);
            }
            if remaining > 0 && self.slots[i].is_none() {
                let to_add = if remaining < item.max_stack {
                    remaining
                } else {
                    item.max_stack
                };
                self.slots.set(i, Some(InventorySlot::new(item.id.as_str(), to_add)));
                remaining = remaining - to_add;
            }
            proof {
                assert(self.view_slots().take(i + 1) =~= before.take(i as int).push(
                    self.view_slots()[i as int],
                ));
                assert forall|j: int| i < j < s1.len() implies #[trigger] self.view_slots()[j] == s1[j] by {
                    assert(self.view_slots()[j] == slot_view(self.slots@[j]));
                    assert(before[j] == s1[j]);
                }
            }
            i = i + 1;
        }
        proof {
            assert(s1.take(s1.len() as int) =~= s1);
            assert(self.view_slots().take(s1.len() as int) =~= self.view_slots());
        }
        proof {
            let q = quantity as nat;
            law_add_conserves_items(s0, id, max, q, id);
            assert forall|k: Seq<char>| k != id implies #[trigger] count_of(self.view_slots(), k) == count_of(
                s0,
                k,
            ) by {
                law_add_conserves_items(s0, id, max, q, k);
            }
            if max > 1 {
                if stacks_within(s0, id, max) {
                    law_has_space_iff_add_fits(s0, id, max, q);
                }
            } else {
                law_has_space_iff_add_fits(s0, id, max, q);
            }
        }
        // Return amount that couldn't be added
        remaining
    }

    /// Remove an item from the inventory; returns the quantity actually removed.
    ///
    /// Stacks are emptied in slot order; a stack brought to zero frees its slot.
    pub fn remove_item(&mut self, item_id: &str, quantity: u32) -> (removed: u32)
        ensures
            (final(self).view_slots(), (quantity - removed) as nat) == remove_pass(
                old(self).view_slots(),
                item_id@,
                quantity as nat,
            ),
            removed <= quantity,
            removed == min_nat(quantity as nat, count_of(old(self).view_slots(), item_id@)),
            final(self).view_slots().len() == old(self).view_slots().len(),
            count_of(final(self).view_slots(), item_id@) == count_of(old(self).view_slots(), item_id@) - removed,
            forall|k: Seq<char>|
                k != item_id@ ==> #[trigger] count_of(final(self).view_slots(), k) == count_of(
                    old(self).view_slots(),
                    k,
                ),
            final(self).max_slots == old(self).max_slots,
            final(self).gold == old(self).gold,
    {
        let ghost s0 = self.view_slots();
        let ghost id = item_id@;
        let wanted = item_id.to_owned();
        let mut remaining = quantity;
        let mut i: usize = 0;
        while i < self.slots.len()
            invariant
                i <= self.slots@.len(),
                self.slots@.len() == s0.len(),
                id == item_id@,
                wanted@ == id,
                remaining <= quantity,
                (self.view_slots().take(i as int), remaining as nat) == remove_pass(
                    s0.take(i as int),
                    id,
                    quantity as nat,
                ),
                forall|j: int| i <= j < s0.len() ==> #[trigger] self.view_slots()[j] == s0[j],
                self.max_slots == old(self).max_slots,
                self.gold == old(self).gold,
            decreases self.slots@.len() - i,
        {
            let ghost before = self.view_slots();
            proof {
                assert(s0.take(i + 1).drop_last() =~= s0.take(i as int));
                assert(s0.take(i + 1).last() == s0[i as int]);
                assert(before[i as int] == s0[i as int]);
            }
            if remaining > 0 {
                let mut new_slot: Option<Option<InventorySlot>> = None;
                match &self.slots[i] {
                    Some(inv_slot) => {
                        if inv_slot.item_id == wanted {
                            let to_remove = if remaining < inv_slot.quantity {
                                remaining
                            } else {
                                inv_slot.quantity
                            };
                            let left = inv_slot.quantity - to_remove;
                            remaining = remaining - to_remove;
                            if left == 0 {
                                new_slot = Some(None);
                            } else {
                                new_slot = Some(
                                    Some(InventorySlot { item_id: inv_slot.item_id.clone(), quantity: left }),
                                );
                            }
                        }
                    },
                    None => {},
                }
                match new_slot {
                    Some(slot) => {
                        self.slots.set(i, slot);
                    },
                    None => {},
                }
            }
            proof {
                assert(self.view_slots().take(i + 1) =~= before.take(i as int).push(
                    self.view_slots()[i as int],
                ));
                assert forall|j: int| i < j < s0.len() implies #[trigger] self.view_slots()[j] == s0[j] by {
                    assert(self.view_slots()[j] == slot_view(self.slots@[j]));
                    assert(before[j] == s0[j]);
                }
            }
            i = i + 1;
        }
        proof {
            assert(s0.take(s0.len() as int) =~= s0);
            assert(self.view_slots().take(s0.len() as int) =~= self.view_slots());
            let q = quantity as nat;
            law_remove_takes_available(s0, id, q, id);
            assert forall|k: Seq<char>| k != id implies #[trigger] count_of(self.view_slots(), k) == count_of(
                s0,
                k,
            ) by {
                law_remove_takes_available(s0, id, q, k);
            }
        }
        // Return amount that was actually removed
        quantity - remaining
    }

    /// Check if the inventory contains at least `quantity` of an item
    pub fn has_item(&self, item_id: &str, quantity: u32) -> (b: bool)
        requires
            count_of(self.view_slots(), item_id@) <= u32::MAX,
        ensures
            b == (count_of(self.view_slots(), item_id@) >= quantity),
    {
        self.count_item(item_id) >= quantity
    }

    /// Count how many of an item the player has
    pub fn count_item(&self, item_id: &str) -> (n: u32)
        requires
            count_of(self.view_slots(), item_id@) <= u32::MAX,
        ensures
            n == count_of(self.view_slots(), item_id@),
    {
        let ghost s = self.view_slots();
        let wanted = item_id.to_owned();
        let mut total: u32 = 0;
        let mut i: usize = 0;
        while i < self.slots.len()
            invariant
                i <= self.slots@.len(),
                s == self.view_slots(),
                s.len() == self.slots@.len(),
                wanted@ == item_id@,
                count_of(s, item_id@) <= u32::MAX,
                total == count_of(s.take(i as int), item_id@),
            decreases self.slots@.len() - i,
        {
            proof {
                assert(s.take(i + 1).drop_last() =~= s.take(i as int));
                lemma_count_prefix(s, item_id@, i + 1);
            }
            match &self.slots[i] {
                Some(inv_slot) => {
                    if inv_slot.item_id == wanted {
                        total = total + inv_slot.quantity;
                    }
                },
                None => {},
            }
            i = i + 1;
        }
        proof {
            assert(s.take(s.len() as int) =~= s);
        }
        total
    }

    /// Check if there's space for `quantity` of an item
    pub fn has_space_for(&self, item: &Item, quantity: u32) -> (b: bool)
        requires
            item.max_stack > 1 ==> stacks_within(self.view_slots(), item.id@, item.max_stack as nat),
        ensures
            b == has_space_spec(self.view_slots(), item.id@, item.max_stack as nat, quantity as nat),
    {
        let ghost s = self.view_slots();
        let ghost max = item.max_stack as nat;
        let mut remaining = quantity;

        // Check existing stacks
        if item.is_stackable() {
            let mut i: usize = 0;
            while i < self.slots.len()
                invariant
                    i <= self.slots@.len(),
                    s == self.view_slots(),
                    s.len() == self.slots@.len(),
                    max == item.max_stack as nat,
                    stacks_within(s, item.id@, max),
                    remaining == sat_sub(quantity as int, stack_room(s.take(i as int), item.id@, max)),
                decreases self.slots@.len() - i,
            {
                proof {
                    assert(s.take(i + 1).drop_last() =~= s.take(i as int));
                    assert(s.take(i + 1).last() == s[i as int]);
                }
                match &self.slots[i] {
                    Some(inv_slot) => {
                        if inv_slot.item_id == item.id {
                            proof {
                                assert(s[i as int] == Some((inv_slot.item_id@, inv_slot.quantity)));
                            }
                            let space = item.max_stack - inv_slot.quantity;
                            remaining = remaining.saturating_sub(space);
                        }
                    },
                    None => {},
                }
                i = i + 1;
            }
            proof {
                assert(s.take(s.len() as int) =~= s);
            }
        }

        // Check empty slots
        let empty_slots = self.empty_slot_count();
        if item.max_stack == 0 {
            remaining == 0
        } else {
            let slots_needed: u64 = (remaining / item.max_stack) as u64 + if remaining % item.max_stack == 0 {
                0u64
            } else {
                1u64
            };
            proof {
                lemma_ceil_div(remaining as nat, max);
            }
            slots_needed <= empty_slots as u64
        }
    }

    fn empty_slot_count(&self) -> (n: usize)
        ensures
            n == empty_count(self.view_slots()),
    {
        let ghost s = self.view_slots();
        let mut n: usize = 0;
        let mut i: usize = 0;
        while i < self.slots.len()
            invariant
                i <= self.slots@.len(),
                s == self.view_slots(),
                s.len() == self.slots@.len(),
                n == empty_count(s.take(i as int)),
                n <= i,
            decreases self.slots@.len() - i,
        {
            proof {
                assert(s.take(i + 1).drop_last() =~= s.take(i as int));
                assert(s.take(i + 1).last() == s[i as int]);
            }
            if self.slots[i].is_none() {
                n = n + 1;
            }
            i = i + 1;
        }
        proof {
            assert(s.take(s.len() as int) =~= s);
        }
        n
    }

    /// Get used slot count
    pub fn used_slots(&self) -> (n: usize)
        ensures
            n == used_count(self.view_slots()),
    {
        let ghost s = self.view_slots();
        let mut n: usize = 0;
        let mut i: usize = 0;
        while i < self.slots.len()
            invariant
                i <= self.slots@.len(),
                s == self.view_slots(),
                s.len() == self.slots@.len(),
                n == used_count(s.take(i as int)),
                n <= i,
            decreases self.slots@.len() - i,
        {
            proof {
                assert(s.take(i + 1).drop_last() =~= s.take(i as int));
                assert(s.take(i + 1).last() == s[i as int]);
            }
            if self.slots[i].is_some() {
                n = n + 1;
            }
            i = i + 1;
        }
        proof {
            assert(s.take(s.len() as int) =~= s);
        }
        n
    }

    /// Is the inventory full?
    pub fn is_full(&self) -> (b: bool)
        ensures
            b == (used_count(self.view_slots()) >= self.max_slots),
    {
        self.used_slots() >= self.max_slots
    }

    /// Clear the inventory: every slot becomes empty.
    pub fn clear(&mut self)
        ensures
            final(self).view_slots() == Seq::new(
                old(self).slots@.len(),
                |i: int| None::<(Seq<char>, u32)>,
            ),
            final(self).max_slots == old(self).max_slots,
            final(self).gold == old(self).gold,
    {
        let mut i: usize = 0;
        while i < self.slots.len()
            invariant
                i <= self.slots@.len(),
                self.slots@.len() == old(self).slots@.len(),
                forall|j: int| 0 <= j < i ==> #[trigger] self.slots@[j] is None,
                self.max_slots == old(self).max_slots,
                self.gold == old(self).gold,
            decreases self.slots@.len() - i,
        {
            self.slots.set(i, None);
            i = i + 1;
        }
        assert(self.view_slots() =~= Seq::new(
            old(self).slots@.len(),
            |i: int| None::<(Seq<char>, u32)>,
        ));
    }
}

/// The count over a prefix never exceeds the count over the whole.
pub proof fn lemma_count_prefix(s: Seq<Option<(Seq<char>, u32)>>, id: Seq<char>, n: int)
    requires
        0 <= n <= s.len(),
    ensures
        count_of(s.take(n), id) <= count_of(s, id),
    decreases s.len(),
{
    if n < s.len() {
        assert(s.drop_last().take(n) =~= s.take(n));
        lemma_count_prefix(s.drop_last(), id, n);
    } else {
        assert(s.take(n) =~= s);
    }
}

/// Rounding a quotient up: `ceil(r / m)` fits in `e` exactly when `r <= e * m`.
proof fn lemma_ceil_div(r: nat, m: nat)
    requires
        m > 0,
    ensures
        r / m + (if r % m == 0 { 0int } else { 1int }) == (r + m - 1) / (m as int),
{
    assert(r == m * (r / m) + r % m) by (nonlinear_arith)
        requires
            m > 0,
    ;
    assert(0 <= r % m < m) by (nonlinear_arith)
        requires
            m > 0,
    ;
    let q = r / m;
    if r % m == 0 {
        assert((r + m - 1) / (m as int) == q) by (nonlinear_arith)
            requires
                m > 0,
                r == m * q,
        ;
    } else {
        assert((r + m - 1) / (m as int) == q + 1) by (nonlinear_arith)
            requires
                m > 0,
                r == m * q + r % m,
                0 < r % m < m,
        ;
    }
}

} // verus!

verus! {

/// Every stack within `max` makes every reached stack within `max`.
pub proof fn lemma_within_safe(s: Seq<Option<(Seq<char>, u32)>>, id: Seq<char>, max: nat, rem: nat)
    requires
        stacks_within(s, id, max),
    ensures
        stack_pass_safe(s, id, max, rem),
{
    assert forall|i: int| 0 <= i < s.len() implies match #[trigger] s[i] {
        Some((k, q)) => (k == id && stack_pass(s.take(i), id, max, rem).1 > 0) ==> q <= max,
        None => true,
    } by {
        match s[i] {
            Some((k, q)) => {},
            None => {},
        }
    }
}

proof fn lemma_safe_drop_last(s: Seq<Option<(Seq<char>, u32)>>, id: Seq<char>, max: nat, rem: nat)
    requires
        s.len() > 0,
        stack_pass_safe(s, id, max, rem),
    ensures
        stack_pass_safe(s.drop_last(), id, max, rem),
        match s.last() {
            Some((k, q)) => (k == id && stack_pass(s.drop_last(), id, max, rem).1 > 0) ==> q <= max,
            None => true,
        },
{
    let t = s.drop_last();
    assert forall|i: int| 0 <= i < t.len() implies match #[trigger] t[i] {
        Some((k, q)) => (k == id && stack_pass(t.take(i), id, max, rem).1 > 0) ==> q <= max,
        None => true,
    } by {
        assert(t.take(i) =~= s.take(i));
        assert(t[i] == s[i]);
    }
    assert(s.take(s.len() - 1) =~= t);
    assert(s[s.len() - 1] == s.last());
}

/// Topping up keeps the number of slots and the empty slots, and moves items
/// of `id` from what is left to place into the stacks.
pub proof fn lemma_stack_pass(s: Seq<Option<(Seq<char>, u32)>>, id: Seq<char>, max: nat, rem: nat, k: Seq<char>)
    requires
        max <= u32::MAX,
        stack_pass_safe(s, id, max, rem),
    ensures
        stack_pass(s, id, max, rem).0.len() == s.len(),
        stack_pass(s, id, max, rem).1 <= rem,
        empty_count(stack_pass(s, id, max, rem).0) == empty_count(s),
        count_of(stack_pass(s, id, max, rem).0, k) == count_of(s, k) + if k == id {
            rem - stack_pass(s, id, max, rem).1
        } else {
            0
        },
    decreases s.len(),
{
    if s.len() > 0 {
        lemma_safe_drop_last(s, id, max, rem);
        lemma_stack_pass(s.drop_last(), id, max, rem, k);
        let p = stack_pass(s.drop_last(), id, max, rem);
        assert(stack_pass(s, id, max, rem).0.drop_last() =~= p.0);
    }
}

/// Filling keeps the number of slots, and moves items of `id` from what is
/// left to place into the empty slots.
pub proof fn lemma_fill_pass(s: Seq<Option<(Seq<char>, u32)>>, id: Seq<char>, max: nat, rem: nat, k: Seq<char>)
    requires
        max <= u32::MAX,
    ensures
        fill_pass(s, id, max, rem).0.len() == s.len(),
        fill_pass(s, id, max, rem).1 <= rem,
        count_of(fill_pass(s, id, max, rem).0, k) == count_of(s, k) + if k == id {
            rem - fill_pass(s, id, max, rem).1
        } else {
            0
        },
        max == 0 ==> fill_pass(s, id, max, rem).1 == rem,
        max > 0 ==> fill_pass(s, id, max, rem).1 == sat_sub(rem as int, (empty_count(s) * max) as int),
    decreases s.len(),
{
    if s.len() > 0 {
        lemma_fill_pass(s.drop_last(), id, max, rem, k);
        let p = fill_pass(s.drop_last(), id, max, rem);
        assert(fill_pass(s, id, max, rem).0.drop_last() =~= p.0);
        let e = empty_count(s.drop_last());
        if max > 0 {
            if s.last() is None {
                assert(empty_count(s) == e + 1);
                assert((e + 1) * max == e * max + max) by (nonlinear_arith);
                assert(fill_pass(s, id, max, rem).1 == sat_sub(p.1 as int, max as int));
                assert(p.1 == sat_sub(rem as int, (e * max) as int));
                assert(sat_sub(p.1 as int, max as int) == sat_sub(rem as int, (e * max + max) as int));
                assert(empty_count(s) * max == e * max + max);
            } else {
                assert(empty_count(s) == e);
                assert(fill_pass(s, id, max, rem).1 == p.1);
            }
        }
    } else {
        assert(empty_count(s) * max == 0) by (nonlinear_arith)
            requires
                empty_count(s) == 0,
        ;
    }
}

/// With every stack of `id` within `max`, topping up leaves exactly what the
/// free room in those stacks cannot take.
pub proof fn lemma_stack_pass_left(s: Seq<Option<(Seq<char>, u32)>>, id: Seq<char>, max: nat, rem: nat)
    requires
        stacks_within(s, id, max),
    ensures
        stack_pass(s, id, max, rem).1 == sat_sub(rem as int, stack_room(s, id, max)),
        stack_room(s, id, max) >= 0,
    decreases s.len(),
{
    if s.len() > 0 {
        assert forall|i: int| 0 <= i < s.drop_last().len() implies match #[trigger] s.drop_last()[i] {
            Some((k, q)) => k == id ==> q <= max,
            None => true,
        } by {
            assert(s.drop_last()[i] == s[i]);
        }
        lemma_stack_pass_left(s.drop_last(), id, max, rem);
        assert(s[s.len() - 1] == s.last());
    }
}

/// The count over the removed slots, and what is left to remove.
pub proof fn lemma_remove_pass(s: Seq<Option<(Seq<char>, u32)>>, id: Seq<char>, rem: nat, k: Seq<char>)
    ensures
        remove_pass(s, id, rem).0.len() == s.len(),
        remove_pass(s, id, rem).1 == sat_sub(rem as int, count_of(s, id) as int),
        count_of(remove_pass(s, id, rem).0, k) == count_of(s, k) - if k == id {
            rem - remove_pass(s, id, rem).1
        } else {
            0
        },
    decreases s.len(),
{
    if s.len() > 0 {
        lemma_remove_pass(s.drop_last(), id, rem, k);
        lemma_remove_pass(s.drop_last(), id, rem, id);
        let p = remove_pass(s.drop_last(), id, rem);
        assert(remove_pass(s, id, rem).0.drop_last() =~= p.0);
    }
}

/// Law (adding conserves items): after `add_item`, the inventory holds the
/// items it held before plus those that were placed, and the quantity
/// returned is what was not placed; the count of any other item is unchanged.
pub proof fn law_add_conserves_items(
    s: Seq<Option<(Seq<char>, u32)>>,
    id: Seq<char>,
    max: nat,
    qty: nat,
    k: Seq<char>,
)
    requires
        max <= u32::MAX,
        max > 1 ==> stack_pass_safe(s, id, max, qty),
    ensures
        add_result(s, id, max, qty).1 <= qty,
        add_result(s, id, max, qty).0.len() == s.len(),
        k == id ==> count_of(add_result(s, id, max, qty).0, k) + add_result(s, id, max, qty).1
            == count_of(s, k) + qty,
        k != id ==> count_of(add_result(s, id, max, qty).0, k) == count_of(s, k),
{
    if max > 1 {
        lemma_stack_pass(s, id, max, qty, k);
        let t = stack_pass(s, id, max, qty);
        lemma_fill_pass(t.0, id, max, t.1, k);
    } else {
        lemma_fill_pass(s, id, max, qty, k);
    }
}

/// Law (removing takes what is there): `remove_item` removes the smaller of
/// the quantity asked for and the quantity held, and the count of the item
/// drops by that much; the count of any other item is unchanged.
pub proof fn law_remove_takes_available(s: Seq<Option<(Seq<char>, u32)>>, id: Seq<char>, qty: nat, k: Seq<char>)
    ensures
        qty - remove_pass(s, id, qty).1 == min_nat(qty, count_of(s, id)),
        remove_pass(s, id, qty).0.len() == s.len(),
        k == id ==> count_of(remove_pass(s, id, qty).0, k) == count_of(s, k) - min_nat(qty, count_of(s, id)),
        k != id ==> count_of(remove_pass(s, id, qty).0, k) == count_of(s, k),
{
    lemma_remove_pass(s, id, qty, k);
}

/// Law (space check agrees with adding): `has_space_for` answers true exactly
/// when `add_item` with the same item and quantity would place everything.
pub proof fn law_has_space_iff_add_fits(s: Seq<Option<(Seq<char>, u32)>>, id: Seq<char>, max: nat, qty: nat)
    requires
        max <= u32::MAX,
        max > 1 ==> stacks_within(s, id, max),
    ensures
        has_space_spec(s, id, max, qty) <==> add_result(s, id, max, qty).1 == 0,
{
    let e = empty_count(s);
    let left = if max > 1 {
        sat_sub(qty as int, stack_room(s, id, max))
    } else {
        qty
    };
    if max > 1 {
        lemma_within_safe(s, id, max, qty);
        lemma_stack_pass(s, id, max, qty, id);
        lemma_stack_pass_left(s, id, max, qty);
        let t = stack_pass(s, id, max, qty);
        lemma_fill_pass(t.0, id, max, t.1, id);
    } else {
        lemma_fill_pass(s, id, max, qty, id);
    }
    if max > 0 {
        lemma_fits_iff(left, max, e);
    }
}

/// `ceil(r / m) <= e` exactly when `r <= e * m`.
proof fn lemma_fits_iff(r: nat, m: nat, e: nat)
    requires
        m > 0,
    ensures
        ((r + m - 1) / (m as int) <= e) <==> (r <= e * m),
{
    let q = (r + m - 1) / (m as int);
    assert(r + m - 1 == m * q + (r + m - 1) % (m as int)) by (nonlinear_arith)
        requires
            m > 0,
            q == (r + m - 1) / (m as int),
    ;
    assert(0 <= (r + m - 1) % (m as int) < m) by (nonlinear_arith)
        requires
            m > 0,
    ;
    assert(e * m == m * e) by (nonlinear_arith);
    assert(m * (e + 1) == m * e + m) by (nonlinear_arith);
    if q <= e {
        assert(m * q <= m * e) by (nonlinear_arith)
            requires
                q <= e,
                m > 0,
        ;
    } else {
        assert(m * q >= m * (e + 1)) by (nonlinear_arith)
            requires
                q >= e + 1,
                m > 0,
        ;
    }
}

/// Law (what is added can be taken back): when `add_item` places everything,
/// removing the same quantity afterwards removes all of it.
pub proof fn law_add_then_remove(s: Seq<Option<(Seq<char>, u32)>>, id: Seq<char>, max: nat, qty: nat)
    requires
        max <= u32::MAX,
        max > 1 ==> stack_pass_safe(s, id, max, qty),
        add_result(s, id, max, qty).1 == 0,
    ensures
        qty - remove_pass(add_result(s, id, max, qty).0, id, qty).1 == qty,
{
    law_add_conserves_items(s, id, max, qty, id);
    law_remove_takes_available(add_result(s, id, max, qty).0, id, qty, id);
}

} // verus!

verus! {

/// Equipment slots
#[derive(Debug, Clone, Copy, PartialEq, Eq, Hash, Structural)]
pub enum EquipmentSlot {
    Weapon,
    Head,
    Body,
    Accessory1,
    Accessory2,
}

/// Player equipment: the id of the item worn in each slot, if any.
#[derive(Debug, Clone)]
pub struct Equipment {
    pub weapon: Option<String>,
    pub head: Option<String>,
    pub body: Option<String>,
    pub accessory1: Option<String>,
    pub accessory2: Option<String>,
}

/// The id in an equipment slot, as a character sequence.
pub open spec fn opt_view(o: Option<String>) -> Option<Seq<char>> {
    match o {
        Some(s) => Some(s@),
        None => None,
    }
}

impl Equipment {
    /// What the given slot holds.
    pub open spec fn slot_spec(&self, slot: EquipmentSlot) -> Option<String> {
        match slot {
            EquipmentSlot::Weapon => self.weapon,
            EquipmentSlot::Head => self.head,
            EquipmentSlot::Body => self.body,
            EquipmentSlot::Accessory1 => self.accessory1,
            EquipmentSlot::Accessory2 => self.accessory2,
        }
    }

    /// The id worn in each slot.
    pub open spec fn worn(&self, slot: EquipmentSlot) -> Option<Seq<char>> {
        opt_view(self.slot_spec(slot))
    }

    pub fn new() -> (e: Self)
        ensures
            forall|slot: EquipmentSlot| #[trigger] e.worn(slot) == None::<Seq<char>>,
    {
        Equipment { weapon: None, head: None, body: None, accessory1: None, accessory2: None }
    }

    /// Puts `item_id` in `slot`; returns what was there.
    pub fn equip(&mut self, slot: EquipmentSlot, item_id: &str) -> (previous: Option<String>)
        ensures
            previous == old(self).slot_spec(slot),
            final(self).worn(slot) == Some(item_id@),
            forall|other: EquipmentSlot|
                other != slot ==> #[trigger] final(self).slot_spec(other) == old(self).slot_spec(other),
    {
        let slot_ref = self.get_slot_mut(slot);
        let previous = slot_ref.take();
        *slot_ref = Some(item_id.to_owned());
        previous
    }

    /// Empties `slot`; returns what was there.
    pub fn unequip(&mut self, slot: EquipmentSlot) -> (previous: Option<String>)
        ensures
            previous == old(self).slot_spec(slot),
            final(self).worn(slot) == None::<Seq<char>>,
            forall|other: EquipmentSlot|
                other != slot ==> #[trigger] final(self).slot_spec(other) == old(self).slot_spec(other),
    {
        self.get_slot_mut(slot).take()
    }

    /// The id of the item in `slot`, if any.
    pub fn get_equipped(&self, slot: EquipmentSlot) -> (r: Option<&str>)
        ensures
            match r {
                Some(s) => self.worn(slot) == Some(s@),
                None => self.worn(slot) == None::<Seq<char>>,
            },
    {
        match self.get_slot(slot) {
            Some(s) => Some(s.as_str()),
            None => None,
        }
    }

    fn get_slot(&self, slot: EquipmentSlot) -> (r: &Option<String>)
        ensures
            *r == self.slot_spec(slot),
    {
        match slot {
            EquipmentSlot::Weapon => &self.weapon,
            EquipmentSlot::Head => &self.head,
            EquipmentSlot::Body => &self.body,
            EquipmentSlot::Accessory1 => &self.accessory1,
            EquipmentSlot::Accessory2 => &self.accessory2,
        }
    }

    fn get_slot_mut(&mut self, slot: EquipmentSlot) -> (r: &mut Option<String>)
        ensures
            *r == old(self).slot_spec(slot),
            final(self).slot_spec(slot) == *final(r),
            forall|other: EquipmentSlot|
                other != slot ==> #[trigger] final(self).slot_spec(other) == old(self).slot_spec(other),
    {
        match slot {
            EquipmentSlot::Weapon => &mut self.weapon,
            EquipmentSlot::Head => &mut self.head,
            EquipmentSlot::Body => &mut self.body,
            EquipmentSlot::Accessory1 => &mut self.accessory1,
            EquipmentSlot::Accessory2 => &mut self.accessory2,
        }
    }
}

impl Default for Equipment {
    fn default() -> (e: Self)
        ensures
            forall|slot: EquipmentSlot| #[trigger] e.worn(slot) == None::<Seq<char>>,
    {
        Self::new()
    }
}

/// Law (what is equipped comes back off): equipping `item` in `slot` and then
/// unequipping that slot returns `item` and leaves the equipment as it was,
/// but for `slot`, which is empty.
pub proof fn law_equip_then_unequip(
    before: Equipment,
    worn: Equipment,
    after: Equipment,
    slot: EquipmentSlot,
    item: Seq<char>,
    taken_off: Option<String>,
)
    requires
        worn.worn(slot) == Some(item),
        forall|other: EquipmentSlot| other != slot ==> #[trigger] worn.slot_spec(other) == before.slot_spec(other),
        taken_off == worn.slot_spec(slot),
        after.worn(slot) == None::<Seq<char>>,
        forall|other: EquipmentSlot| other != slot ==> #[trigger] after.slot_spec(other) == worn.slot_spec(other),
    ensures
        opt_view(taken_off) == Some(item),
        after.worn(slot) == None::<Seq<char>>,
        forall|other: EquipmentSlot| other != slot ==> #[trigger] after.slot_spec(other) == before.slot_spec(other),
{
}

/// How many slots are used is at most how many there are, and equals it
/// exactly when every slot is used.
proof fn lemma_used_count(s: Seq<Option<(Seq<char>, u32)>>)
    ensures
        used_count(s) <= s.len(),
        (used_count(s) == s.len()) <==> (forall|i: int| 0 <= i < s.len() ==> #[trigger] s[i] is Some),
    decreases s.len(),
{
    if s.len() > 0 {
        lemma_used_count(s.drop_last());
        if forall|i: int| 0 <= i < s.len() ==> #[trigger] s[i] is Some {
            assert forall|i: int| 0 <= i < s.drop_last().len() implies #[trigger] s.drop_last()[i] is Some by {
                assert(s[i] is Some);
            }
            assert(s[s.len() - 1] is Some);
        }
        if used_count(s) == s.len() {
            assert forall|i: int| 0 <= i < s.len() implies #[trigger] s[i] is Some by {
                if i < s.len() - 1 {
                    assert(s.drop_last()[i] is Some);
                }
            }
        }
    }
}

/// Slots that are all used, none by item `id`, are left as they are by the
/// topping up and by the filling.
proof fn lemma_full_unchanged(s: Seq<Option<(Seq<char>, u32)>>, id: Seq<char>, max: nat, rem: nat)
    requires
        forall|i: int| 0 <= i < s.len() ==> (#[trigger] s[i] matches Some((k, _)) && k != id),
    ensures
        stack_pass(s, id, max, rem) == (s, rem),
        fill_pass(s, id, max, rem) == (s, rem),
    decreases s.len(),
{
    if s.len() > 0 {
        assert forall|i: int| 0 <= i < s.drop_last().len() implies (#[trigger] s.drop_last()[i] matches Some((
            k,
            _,
        )) && k != id) by {
            assert(s[i] matches Some((k, _)) && k != id);
        }
        lemma_full_unchanged(s.drop_last(), id, max, rem);
        assert(s[s.len() - 1] matches Some((k, _)) && k != id);
        assert(s.drop_last().push(s.last()) =~= s);
    }
}

/// Law (a full inventory takes nothing new): with as many slots as
/// `max_slots`, `is_full` holds exactly when every slot is used; and when it
/// holds and no slot holds item `id`, `add_item` of `id` places nothing and
/// changes no slot.
pub proof fn law_full_inventory(
    s: Seq<Option<(Seq<char>, u32)>>,
    max_slots: nat,
    id: Seq<char>,
    max: nat,
    qty: nat,
)
    requires
        s.len() == max_slots,
    ensures
        (used_count(s) >= max_slots) <==> (forall|i: int| 0 <= i < s.len() ==> #[trigger] s[i] is Some),
        used_count(s) >= max_slots && (forall|i: int|
            0 <= i < s.len() ==> (#[trigger] s[i] matches Some((k, _)) && k != id)) ==> add_result(
            s,
            id,
            max,
            qty,
        ) == (s, qty),
{
    lemma_used_count(s);
    if forall|i: int| 0 <= i < s.len() ==> (#[trigger] s[i] matches Some((k, _)) && k != id) {
        lemma_full_unchanged(s, id, max, qty);
    }
}

/// Law (clearing empties the inventory): after `clear`, no item is counted,
/// no slot is used, and every slot is empty.
pub proof fn law_clear_empties(n: nat, id: Seq<char>)
    ensures
        count_of(Seq::new(n, |i: int| None::<(Seq<char>, u32)>), id) == 0,
        used_count(Seq::new(n, |i: int| None::<(Seq<char>, u32)>)) == 0,
        empty_count(Seq::new(n, |i: int| None::<(Seq<char>, u32)>)) == n,
    decreases n,
{
    if n > 0 {
        let s = Seq::new(n, |i: int| None::<(Seq<char>, u32)>);
        law_clear_empties((n - 1) as nat, id);
        assert(s.drop_last() =~= Seq::new((n - 1) as nat, |i: int| None::<(Seq<char>, u32)>));
    }
}

} // verus!
