//! The player inventory: slots of item stacks, stacking, and the hotbar.

use vstd::prelude::*;
use crate::item::{ItemId, ItemStack, max_stack, spec_max_stack, spec_stack_add, spec_stack_remove};

verus! {

/// One inventory slot.
#[derive(Debug, Clone, Copy, PartialEq, Eq, Structural)]
pub struct InventorySlot {
    pub item: Option<ItemStack>,
}

/// A slot holds nothing: no stack, or a stack of zero items.
pub open spec fn slot_empty(o: Option<ItemStack>) -> bool {
    match o {
        Some(st) => st.count == 0,
        None => true,
    }
}

/// Adding `n` of item `id` to a slot holding `o`: a stack of the same item
/// takes what fits, a stack of another item takes nothing, and a slot without
/// a stack starts a new one with as many as fit. Returns the new content and
/// the leftover.
pub open spec fn spec_slot_add(o: Option<ItemStack>, id: ItemId, n: u8) -> (Option<ItemStack>, u8) {
    match o {
        Some(st) => if st.id == id {
            let (s2, l) = spec_stack_add(st, n);
            (Some(s2), l)
        } else {
            (o, n)
        },
        None => {
            let t: u8 = if n <= spec_max_stack(id) { n } else { spec_max_stack(id) };
            (Some(ItemStack { id, count: t }), (n - t) as u8)
        },
    }
}

/// Removing up to `n` items from a slot holding `o`: the new content (the
/// stack goes away once it is empty) and how many were removed.
pub open spec fn spec_slot_remove(o: Option<ItemStack>, n: u8) -> (Option<ItemStack>, u8) {
    match o {
        Some(st) => {
            let (s2, r) = spec_stack_remove(st, n);
            (if s2.count == 0 { None } else { Some(s2) }, r)
        },
        None => (None, 0),
    }
}

/// How many of item `id` a slot holding `o` has.
pub open spec fn cnt(o: Option<ItemStack>, id: ItemId) -> nat {
    match o {
        Some(st) => if st.id == id { st.count as nat } else { 0 },
        None => 0,
    }
}

/// The slot holds a stack of item `id` (possibly of zero items).
pub open spec fn holds_id(o: Option<ItemStack>, id: ItemId) -> bool {
    match o {
        Some(st) => st.id == id,
        None => false,
    }
}

impl InventorySlot {
    pub fn new() -> (s: Self)
        ensures
            s.item.is_none(),
    {
        InventorySlot { item: None }
    }

    pub fn with_item(self, item_id: ItemId, count: u8) -> (s: Self)
        ensures
            s.item == Some(ItemStack { id: item_id, count }),
    {
        InventorySlot { item: Some(ItemStack::new(item_id, count)) }
    }

    pub fn is_empty(&self) -> (b: bool)
        ensures
            b == slot_empty(self.item),
    {
        match &self.item {
            Some(st) => st.is_empty(),
            None => true,
        }
    }

    pub fn count(&self) -> (c: u8)
        ensures
            c == (match self.item {
                Some(st) => st.count,
                None => 0u8,
            }),
    {
        match &self.item {
            Some(st) => st.count,
            None => 0,
        }
    }

    pub fn item_id(&self) -> (id: Option<ItemId>)
        ensures
            id == (match self.item {
                Some(st) => Some(st.id),
                None => None::<ItemId>,
            }),
    {
        match &self.item {
            Some(st) => Some(st.id),
            None => None,
        }
    }

    /// Adds items to this slot; returns the leftover count.
    pub fn add(&mut self, item_id: ItemId, count: u8) -> (left: u8)
        ensures
            (final(self).item, left) == spec_slot_add(old(self).item, item_id, count),
    {
        match self.item {
            Some(st) => {
                if st.id == item_id {
                    let mut s2 = st;
                    let left = s2.add(count);
                    self.item = Some(s2);
                    left
                } else {
                    count
                }
            },
            None => {
                let max = max_stack(item_id);
                let to_add: u8 = if count <= max { count } else { max };
                self.item = Some(ItemStack::new(item_id, to_add));
                count - to_add
            },
        }
    }

    /// Removes items from this slot; returns how many were removed.
    pub fn remove(&mut self, count: u8) -> (removed: u8)
        ensures
            (final(self).item, removed) == spec_slot_remove(old(self).item, count),
    {
        match self.item {
            Some(st) => {
                let mut s2 = st;
                let removed = s2.remove(count);
                if s2.is_empty() {
                    self.item = None;
                } else {
                    self.item = Some(s2);
                }
                removed
            },
            None => 0,
        }
    }

    pub fn clear(&mut self)
        ensures
            final(self).item.is_none(),
    {
        self.item = None;
    }

    /// A copy of the stack in this slot.
    pub fn get_stack(&self) -> (s: Option<ItemStack>)
        ensures
            s == self.item,
    {
        self.item
    }
}

impl Default for InventorySlot {
    fn default() -> (s: Self)
        ensures
            s.item.is_none(),
    {
        InventorySlot::new()
    }
}

/// The total number of item `id` over the slots `s`.
pub open spec fn total(s: Seq<Option<ItemStack>>, id: ItemId) -> nat
    decreases s.len(),
{
    if s.len() == 0 {
        0
    } else {
        total(s.drop_last(), id) + cnt(s.last(), id)
    }
}

/// The step that one pass of `add_item` takes at one slot: the first pass
/// tops up stacks of the same item that are below their limit, the second
/// fills slots that hold nothing. Returns the new content, the leftover, and
/// whether the slot was used.
pub open spec fn fill_step(o: Option<ItemStack>, id: ItemId, rem: u8, stacking_pass: bool) -> (Option<ItemStack>, u8, bool) {
    let used = if stacking_pass {
        match o {
            Some(st) => st.id == id && st.count < spec_max_stack(id),
            None => false,
        }
    } else {
        slot_empty(o)
    };
    if used {
        let (o2, l) = spec_slot_add(o, id, rem);
        (o2, l, true)
    } else {
        (o, rem, false)
    }
}

/// One pass of `add_item` over the first `k` slots of `s`, in slot order,
/// starting with `rem` items: the new slots, the items still to place, and
/// whether the pass stopped because a slot took the last of them.
pub open spec fn fill_pass(s: Seq<Option<ItemStack>>, k: int, id: ItemId, rem: u8, stacking_pass: bool) -> (Seq<Option<ItemStack>>, u8, bool)
    decreases k,
{
    if k <= 0 {
        (s, rem, false)
    } else {
        let (t, r, done) = fill_pass(s, k - 1, id, rem, stacking_pass);
        if done {
            (t, r, done)
        } else {
            let (o, l, used) = fill_step(t[k - 1], id, r, stacking_pass);
            (t.update(k - 1, o), l, used && l == 0)
        }
    }
}

/// What adding `count` of item `id` does to the slots `s`: first top up
/// stacks of the same item in slot order, then fill empty slots in slot
/// order, stopping as soon as nothing is left. The new slots and the leftover.
pub open spec fn spec_add_item(s: Seq<Option<ItemStack>>, id: ItemId, count: u8) -> (Seq<Option<ItemStack>>, u8) {
    let (s1, r1, d1) = fill_pass(s, s.len() as int, id, count, true);
    if d1 {
        (s1, 0u8)
    } else {
        let (s2, r2, d2) = fill_pass(s1, s1.len() as int, id, r1, false);
        (s2, if d2 { 0u8 } else { r2 })
    }
}

/// The player inventory.
#[derive(Debug, Clone)]
pub struct Inventory {
    slots: Vec<InventorySlot>,
    hotbar_size: usize,
    selected_slot: usize,
}

impl View for Inventory {
    type V = Seq<Option<ItemStack>>;

    /// The contents of the slots, in slot order.
    closed spec fn view(&self) -> Seq<Option<ItemStack>> {
        self.slots@.map_values(|s: InventorySlot| s.item)
    }
}

impl Inventory {
    /// The number of hotbar slots (the last ones of the inventory).
    pub closed spec fn hotbar_len(&self) -> usize {
        self.hotbar_size
    }

    /// The index of the selected hotbar slot.
    pub closed spec fn selected(&self) -> usize {
        self.selected_slot
    }

    /// The index of the first hotbar slot.
    pub open spec fn spec_hotbar_start(&self) -> int {
        if self@.len() >= self.hotbar_len() { self@.len() - self.hotbar_len() } else { 0 }
    }

    /// No item's total count exceeds what a `u32` holds.
    pub open spec fn counts_fit(&self) -> bool {
        forall|id: ItemId| #[trigger] total(self@, id) <= u32::MAX
    }

    pub fn new(size: usize) -> (inv: Self)
        ensures
            inv@.len() == size,
            forall|i: int| 0 <= i < size ==> (#[trigger] inv@[i]).is_none(),
            inv.hotbar_len() == 9,
            inv.selected() == inv.spec_hotbar_start(),
            size > 0 ==> inv.spec_hotbar_start() <= inv.selected() < size,
    {
        let mut slots: Vec<InventorySlot> = Vec::new();
        let mut i: usize = 0;
        while i < size
            invariant
                i <= size,
                slots@.len() == i,
                forall|j: int| 0 <= j < i ==> (#[trigger] slots@[j]).item.is_none(),
            decreases size - i,
        {
            slots.push(InventorySlot::new());
            i = i + 1;
        }
        let start: usize = if size >= 9 { size - 9 } else { 0 };
        let inv = Inventory { slots, hotbar_size: 9, selected_slot: start };
        assert forall|j: int| 0 <= j < size implies (#[trigger] inv@[j]).is_none() by {
            assert(inv@[j] == inv.slots@[j].item);
        }
        inv
    }

    pub fn size(&self) -> (n: usize)
        ensures
            n == self@.len(),
    {
        self.slots.len()
    }

    /// The slot at `index`, if there is one.
    pub fn get_slot(&self, index: usize) -> (r: Option<&InventorySlot>)
        ensures
            index < self@.len() ==> r.is_some() && r.unwrap().item == self@[index as int],
            index >= self@.len() ==> r.is_none(),
    {
        if index < self.slots.len() {
            Some(&self.slots[index])
        } else {
            None
        }
    }

    /// The slot at `index` for changing, if there is one.
    pub fn get_slot_mut(&mut self, index: usize) -> (r: Option<&mut InventorySlot>)
        ensures
            index < old(self)@.len() ==> r.is_some() && r.unwrap().item == old(self)@[index as int]
                && final(self)@ == old(self)@.update(index as int, final(r.unwrap()).item)
                && final(self).hotbar_len() == old(self).hotbar_len()
                && final(self).selected() == old(self).selected(),
            index >= old(self)@.len() ==> r.is_none() && *final(self) == *old(self),
    {
        if index < self.slots.len() {
            Some(&mut self.slots[index])
        } else {
            None
        }
    }

    /// The index of the first hotbar slot: the hotbar is the last nine slots.
    pub fn hotbar_start(&self) -> (start: usize)
        ensures
            start == self.spec_hotbar_start(),
    {
        if self.slots.len() >= self.hotbar_size {
            self.slots.len() - self.hotbar_size
        } else {
            0
        }
    }

    pub fn selected_slot(&self) -> (i: usize)
        ensures
            i == self.selected(),
    {
        self.selected_slot
    }

    /// Selects hotbar slot `slot`; an index outside the hotbar is ignored.
    pub fn set_selected_slot(&mut self, slot: usize)
        ensures
            final(self)@ == old(self)@,
            final(self).hotbar_len() == old(self).hotbar_len(),
            final(self).selected() == (if old(self).spec_hotbar_start() <= slot < old(self)@.len() {
                slot
            } else {
                old(self).selected()
            }),
    {
        let start = self.hotbar_start();
        let end = self.slots.len();
        if slot >= start && slot < end {
            self.selected_slot = slot;
        }
    }

    /// The selected slot, if it exists.
    pub fn selected_item(&self) -> (r: Option<&InventorySlot>)
        ensures
            self.selected() < self@.len() ==> r.is_some() && r.unwrap().item == self@[self.selected() as int],
            self.selected() >= self@.len() ==> r.is_none(),
    {
        self.get_slot(self.selected_slot)
    }

    /// Adds `count` of item `item_id`: first onto stacks of the same item,
    /// in slot order, then into empty slots. Returns the item and how many
    /// did not fit.
    pub fn add_item(&mut self, item_id: ItemId, count: u8) -> (r: (ItemId, u8))
        ensures
            r.0 == item_id,
            (final(self)@, r.1) == spec_add_item(old(self)@, item_id, count),
            final(self).hotbar_len() == old(self).hotbar_len(),
            final(self).selected() == old(self).selected(),
    {
        let ghost s0 = self@;
        let n = self.slots.len();
        let mut remaining = count;
        let mut i: usize = 0;
        proof {
            lemma_fill_pass_len(s0, n as int, item_id, count, true);
        }
        while i < n
            invariant
                n == self.slots.len(),
                s0 == old(self)@,
                s0.len() == n,
                i <= n,
                (self@, remaining, false) == fill_pass(s0, i as int, item_id, count, true),
                self.hotbar_len() == old(self).hotbar_len(),
                self.selected() == old(self).selected(),
            decreases n - i,
        {
            let slot = self.slots[i];
            let used = match slot.item {
                Some(st) => st.id == item_id && st.count < st.max_count(),
                None => false,
            };
            proof {
                assert(self@[i as int] == slot.item);
            }
            if used {
                let mut s2 = slot;
                remaining = s2.add(item_id, remaining);
                self.set_slot_at(i, s2);
                if remaining == 0 {
                    proof {
                        lemma_fill_pass_done_stable(s0, i as int + 1, n as int, item_id, count, true);
                        assert(fill_pass(s0, s0.len() as int, item_id, count, true).2);
                        assert(self@ == fill_pass(s0, s0.len() as int, item_id, count, true).0);
                    }
                    return (item_id, 0);
                }
            }
            i = i + 1;
        }
        let ghost s1 = self@;
        let ghost r1 = remaining;
        proof {
            lemma_fill_pass_len(s1, n as int, item_id, r1, false);
        }
        i = 0;
        while i < n
            invariant
                n == self.slots.len(),
                s0 == old(self)@,
                s1.len() == n,
                i <= n,
                (s1, r1, false) == fill_pass(s0, s0.len() as int, item_id, count, true),
                (self@, remaining, false) == fill_pass(s1, i as int, item_id, r1, false),
                self.hotbar_len() == old(self).hotbar_len(),
                self.selected() == old(self).selected(),
            decreases n - i,
        {
            let slot = self.slots[i];
            proof {
                assert(self@[i as int] == slot.item);
            }
            if slot.is_empty() {
                let mut s2 = slot;
                remaining = s2.add(item_id, remaining);
                self.set_slot_at(i, s2);
                if remaining == 0 {
                    proof {
                        lemma_fill_pass_done_stable(s1, i as int + 1, n as int, item_id, r1, false);
                        assert(fill_pass(s1, s1.len() as int, item_id, r1, false).2);
                        assert(self@ == fill_pass(s1, s1.len() as int, item_id, r1, false).0);
                    }
                    return (item_id, 0);
                }
            }
            i = i + 1;
        }
        (item_id, remaining)
    }

    /// Replaces the slot at `i`.
    fn set_slot_at(&mut self, i: usize, slot: InventorySlot)
        requires
            i < old(self)@.len(),
        ensures
            final(self)@ == old(self)@.update(i as int, slot.item),
            final(self)@.len() == old(self)@.len(),
            final(self).hotbar_len() == old(self).hotbar_len(),
            final(self).selected() == old(self).selected(),
    {
        self.slots.set(i, slot);
        assert(self@ =~= old(self)@.update(i as int, slot.item));
    }

    /// Removes up to `count` items from slot `index`; returns how many were
    /// removed (none when there is no such slot).
    pub fn remove_item(&mut self, index: usize, count: u8) -> (removed: u8)
        ensures
            index < old(self)@.len() ==> (final(self)@, removed) == ({
                let (o, r) = spec_slot_remove(old(self)@[index as int], count);
                (old(self)@.update(index as int, o), r)
            }),
            index >= old(self)@.len() ==> final(self)@ == old(self)@ && removed == 0,
            final(self).hotbar_len() == old(self).hotbar_len(),
            final(self).selected() == old(self).selected(),
    {
        if index < self.slots.len() {
            let mut slot = self.slots[index];
            proof {
                assert(self@[index as int] == slot.item);
            }
            let removed = slot.remove(count);
            self.set_slot_at(index, slot);
            removed
        } else {
            0
        }
    }

    /// Removes up to `count` items from the selected slot.
    pub fn remove_selected(&mut self, count: u8) -> (removed: u8)
        ensures
            old(self).selected() < old(self)@.len() ==> (final(self)@, removed) == ({
                let (o, r) = spec_slot_remove(old(self)@[old(self).selected() as int], count);
                (old(self)@.update(old(self).selected() as int, o), r)
            }),
            old(self).selected() >= old(self)@.len() ==> final(self)@ == old(self)@ && removed == 0,
            final(self).hotbar_len() == old(self).hotbar_len(),
            final(self).selected() == old(self).selected(),
    {
        let sel = self.selected_slot;
        self.remove_item(sel, count)
    }

    /// Empties every slot.
    pub fn clear(&mut self)
        ensures
            final(self)@.len() == old(self)@.len(),
            forall|i: int| 0 <= i < final(self)@.len() ==> (#[trigger] final(self)@[i]).is_none(),
            final(self).hotbar_len() == old(self).hotbar_len(),
            final(self).selected() == old(self).selected(),
    {
        let n = self.slots.len();
        let mut i: usize = 0;
        while i < n
            invariant
                n == self.slots.len(),
                n == old(self)@.len(),
                i <= n,
                forall|j: int| 0 <= j < i ==> (#[trigger] self@[j]).is_none(),
                self.hotbar_len() == old(self).hotbar_len(),
                self.selected() == old(self).selected(),
            decreases n - i,
        {
            self.set_slot_at(i, InventorySlot::new());
            i = i + 1;
        }
    }

    /// The first slot that holds a stack of `item_id`.
    pub fn find_item(&self, item_id: ItemId) -> (r: Option<usize>)
        ensures
            match r {
                Some(i) => i < self@.len() && holds_id(self@[i as int], item_id)
                    && forall|j: int| 0 <= j < i ==> !holds_id(#[trigger] self@[j], item_id),
                None => forall|j: int| 0 <= j < self@.len() ==> !holds_id(#[trigger] self@[j], item_id),
            },
    {
        let n = self.slots.len();
        let mut i: usize = 0;
        while i < n
            invariant
                n == self@.len(),
                i <= n,
                forall|j: int| 0 <= j < i ==> !holds_id(#[trigger] self@[j], item_id),
            decreases n - i,
        {
            let slot = &self.slots[i];
            proof {
                assert(self@[i as int] == slot.item);
            }
            let found = match &slot.item {
                Some(st) => st.id == item_id,
                None => false,
            };
            if found {
                return Some(i);
            }
            i = i + 1;
        }
        None
    }

    /// The total number of `item_id` in the inventory.
    pub fn count_item(&self, item_id: ItemId) -> (c: u32)
        requires
            total(self@, item_id) <= u32::MAX,
        ensures
            c == total(self@, item_id),
    {
        let n = self.slots.len();
        let mut acc: u32 = 0;
        let mut i: usize = 0;
        while i < n
            invariant
                n == self@.len(),
                i <= n,
                total(self@, item_id) <= u32::MAX,
                acc == total(self@.take(i as int), item_id),
            decreases n - i,
        {
            let slot = &self.slots[i];
            proof {
                assert(self@[i as int] == slot.item);
                assert(self@.take(i as int + 1).drop_last() =~= self@.take(i as int));
                lemma_total_prefix_le(self@, i as int + 1, item_id);
            }
            let add: u32 = match &slot.item {
                Some(st) => if st.id == item_id { st.count as u32 } else { 0 },
                None => 0,
            };
            acc = acc + add;
            i = i + 1;
        }
        proof {
            assert(self@.take(n as int) =~= self@);
        }
        acc
    }

    /// Some slot holds a stack of `item_id`.
    pub fn contains(&self, item_id: ItemId) -> (b: bool)
        ensures
            b == exists|j: int| 0 <= j < self@.len() && holds_id(#[trigger] self@[j], item_id),
    {
        match self.find_item(item_id) {
            Some(i) => {
                assert(holds_id(self@[i as int], item_id));
                true
            },
            None => false,
        }
    }

    /// The inventory holds at least `count` of `item_id` in all.
    pub fn contains_count(&self, item_id: ItemId, count: u32) -> (b: bool)
        requires
            total(self@, item_id) <= u32::MAX,
        ensures
            b == (total(self@, item_id) >= count),
    {
        self.count_item(item_id) >= count
    }

    /// Exchanges slots `a` and `b`; does nothing unless both exist and differ.
    pub fn swap(&mut self, a: usize, b: usize)
        ensures
            final(self)@ == (if a < old(self)@.len() && b < old(self)@.len() && a != b {
                old(self)@.update(a as int, old(self)@[b as int]).update(b as int, old(self)@[a as int])
            } else {
                old(self)@
            }),
            final(self).hotbar_len() == old(self).hotbar_len(),
            final(self).selected() == old(self).selected(),
    {
        if a < self.slots.len() && b < self.slots.len() && a != b {
            let sa = self.slots[a];
            let sb = self.slots[b];
            proof {
                assert(self@[a as int] == sa.item);
                assert(self@[b as int] == sb.item);
            }
            self.set_slot_at(a, sb);
            self.set_slot_at(b, sa);
        }
    }

    /// Moves the stack in `from` to `to`: into an empty slot it moves, onto a
    /// stack of another item (or onto a stack from an empty source) the two
    /// slots trade places, onto a stack of the same item nothing happens.
    pub fn move_to(&mut self, from: usize, to: usize)
        ensures
            final(self)@ == (if from < old(self)@.len() && to < old(self)@.len() && from != to {
                if slot_empty(old(self)@[to as int]) {
                    old(self)@.update(from as int, None).update(to as int, old(self)@[from as int])
                } else if spec_item_id(old(self)@[from as int]) != spec_item_id(old(self)@[to as int]) {
                    old(self)@.update(from as int, old(self)@[to as int]).update(to as int, old(self)@[from as int])
                } else {
                    old(self)@
                }
            } else {
                old(self)@
            }),
            final(self).hotbar_len() == old(self).hotbar_len(),
            final(self).selected() == old(self).selected(),
    {
        if from < self.slots.len() && to < self.slots.len() && from != to {
            let sf = self.slots[from];
            let st = self.slots[to];
            proof {
                assert(self@[from as int] == sf.item);
                assert(self@[to as int] == st.item);
            }
            if st.is_empty() {
                self.set_slot_at(from, InventorySlot::new());
                self.set_slot_at(to, InventorySlot { item: sf.item });
            } else {
                let from_id = sf.item_id();
                let to_id = st.item_id();
                if !opt_id_eq(from_id, to_id) {
                    self.swap(from, to);
                }
            }
        }
    }

    /// The slots, in order.
    pub fn iter(&self) -> (r: &[InventorySlot])
        ensures
            r@.map_values(|s: InventorySlot| s.item) == self@,
    {
        self.slots.as_slice()
    }

    /// The slots, in order, for changing in place.
    pub fn iter_mut(&mut self) -> (r: &mut [InventorySlot])
        ensures
            r@.map_values(|s: InventorySlot| s.item) == old(self)@,
            final(self)@ == final(r)@.map_values(|s: InventorySlot| s.item),
            final(self).hotbar_len() == old(self).hotbar_len(),
            final(self).selected() == old(self).selected(),
    {
        self.slots.as_mut_slice()
    }
}

/// The item id a slot's stack carries.
pub open spec fn spec_item_id(o: Option<ItemStack>) -> Option<ItemId> {
    match o {
        Some(st) => Some(st.id),
        None => None,
    }
}

fn opt_id_eq(a: Option<ItemId>, b: Option<ItemId>) -> (r: bool)
    ensures
        r == (a == b),
{
    match (a, b) {
        (Some(x), Some(y)) => x == y,
        (None, None) => true,
        _ => false,
    }
}

proof fn lemma_fill_pass_len(s: Seq<Option<ItemStack>>, k: int, id: ItemId, rem: u8, p: bool)
    requires
        k <= s.len(),
    ensures
        fill_pass(s, k, id, rem, p).0.len() == s.len(),
    decreases k,
{
    if k > 0 {
        lemma_fill_pass_len(s, k - 1, id, rem, p);
        let (t, r, done) = fill_pass(s, k - 1, id, rem, p);
        if !done {
            let (o, l, used) = fill_step(t[k - 1], id, r, p);
            assert(t.update(k - 1, o).len() == t.len());
        }
    }
}

/// Once a pass has placed everything, the later slots stay as they are.
proof fn lemma_fill_pass_done_stable(s: Seq<Option<ItemStack>>, k: int, k2: int, id: ItemId, rem: u8, p: bool)
    requires
        0 <= k <= k2,
        fill_pass(s, k, id, rem, p).2,
    ensures
        fill_pass(s, k2, id, rem, p) == fill_pass(s, k, id, rem, p),
    decreases k2,
{
    if k2 > k {
        lemma_fill_pass_done_stable(s, k, k2 - 1, id, rem, p);
    }
}

proof fn lemma_total_prefix_le(s: Seq<Option<ItemStack>>, i: int, id: ItemId)
    requires
        0 <= i <= s.len(),
    ensures
        total(s.take(i), id) <= total(s, id),
    decreases s.len(),
{
    if i < s.len() {
        assert(s.drop_last().take(i) =~= s.take(i));
        lemma_total_prefix_le(s.drop_last(), i, id);
    } else {
        assert(s.take(i) =~= s);
    }
}

/// Replacing one slot changes an item's total by the difference of the two
/// slot counts.
pub(crate) proof fn lemma_total_update(s: Seq<Option<ItemStack>>, i: int, o: Option<ItemStack>, id: ItemId)
    requires
        0 <= i < s.len(),
    ensures
        total(s.update(i, o), id) + cnt(s[i], id) == total(s, id) + cnt(o, id),
    decreases s.len(),
{
    let t = s.update(i, o);
    if i == s.len() - 1 {
        assert(t.drop_last() =~= s.drop_last());
    } else {
        assert(t.drop_last() =~= s.drop_last().update(i, o));
        lemma_total_update(s.drop_last(), i, o, id);
    }
}

proof fn lemma_fill_step_counts(o: Option<ItemStack>, id: ItemId, rem: u8, p: bool, other: ItemId)
    ensures
        cnt(fill_step(o, id, rem, p).0, id) + fill_step(o, id, rem, p).1 == cnt(o, id) + rem,
        other != id ==> cnt(fill_step(o, id, rem, p).0, other) == cnt(o, other),
{
}

proof fn lemma_fill_pass_counts(s: Seq<Option<ItemStack>>, k: int, id: ItemId, rem: u8, p: bool, other: ItemId)
    requires
        k <= s.len(),
    ensures
        total(fill_pass(s, k, id, rem, p).0, id) + fill_pass(s, k, id, rem, p).1 == total(s, id) + rem,
        other != id ==> total(fill_pass(s, k, id, rem, p).0, other) == total(s, other),
        fill_pass(s, k, id, rem, p).0.len() == s.len(),
    decreases k,
{
    if k > 0 {
        lemma_fill_pass_counts(s, k - 1, id, rem, p, other);
        let (t, r, done) = fill_pass(s, k - 1, id, rem, p);
        if !done {
            let (o, l, used) = fill_step(t[k - 1], id, r, p);
            lemma_fill_step_counts(t[k - 1], id, r, p, other);
            lemma_total_update(t, k - 1, o, id);
            lemma_total_update(t, k - 1, o, other);
        }
    }
}

/// Adding items conserves them: what lands in the slots plus what is left
/// over is what was there plus what was added; no other item's total moves,
/// and the number of slots stays the same.
pub proof fn law_add_item_conserves(s: Seq<Option<ItemStack>>, id: ItemId, count: u8, other: ItemId)
    ensures
        total(spec_add_item(s, id, count).0, id) + spec_add_item(s, id, count).1 == total(s, id) + count,
        other != id ==> total(spec_add_item(s, id, count).0, other) == total(s, other),
        spec_add_item(s, id, count).0.len() == s.len(),
        spec_add_item(s, id, count).1 <= count,
{
    lemma_fill_pass_counts(s, s.len() as int, id, count, true, other);
    let (s1, r1, d1) = fill_pass(s, s.len() as int, id, count, true);
    lemma_fill_pass_done_zero(s, s.len() as int, id, count, true);
    if !d1 {
        lemma_fill_pass_counts(s1, s1.len() as int, id, r1, false, other);
        lemma_fill_pass_done_zero(s1, s1.len() as int, id, r1, false);
        lemma_fill_pass_rem_le(s1, s1.len() as int, id, r1, false);
    }
    lemma_fill_pass_rem_le(s, s.len() as int, id, count, true);
}

proof fn lemma_fill_pass_done_zero(s: Seq<Option<ItemStack>>, k: int, id: ItemId, rem: u8, p: bool)
    ensures
        fill_pass(s, k, id, rem, p).2 ==> fill_pass(s, k, id, rem, p).1 == 0,
    decreases k,
{
    if k > 0 {
        lemma_fill_pass_done_zero(s, k - 1, id, rem, p);
    }
}

proof fn lemma_fill_pass_rem_le(s: Seq<Option<ItemStack>>, k: int, id: ItemId, rem: u8, p: bool)
    ensures
        fill_pass(s, k, id, rem, p).1 <= rem,
    decreases k,
{
    if k > 0 {
        lemma_fill_pass_rem_le(s, k - 1, id, rem, p);
    }
}

/// Removing from a slot conserves items: what stays plus what was removed is
/// what was there, and no more than asked is removed.
pub proof fn law_remove_conserves(s: Seq<Option<ItemStack>>, index: int, count: u8, id: ItemId)
    requires
        0 <= index < s.len(),
    ensures
        total(s.update(index, spec_slot_remove(s[index], count).0), id)
            + (if holds_id(s[index], id) { spec_slot_remove(s[index], count).1 as nat } else { 0 })
            == total(s, id),
        spec_slot_remove(s[index], count).1 <= count,
{
    lemma_total_update(s, index, spec_slot_remove(s[index], count).0, id);
}

/// Moving and swapping slots never changes how many of an item the
/// inventory holds.
pub proof fn law_swap_conserves(s: Seq<Option<ItemStack>>, a: int, b: int, id: ItemId)
    requires
        0 <= a < s.len(),
        0 <= b < s.len(),
        a != b,
    ensures
        total(s.update(a, s[b]).update(b, s[a]), id) == total(s, id),
        slot_empty(s[b]) ==> total(s.update(a, None).update(b, s[a]), id) + cnt(s[b], id) == total(s, id),
{
    lemma_total_update(s, a, s[b], id);
    lemma_total_update(s.update(a, s[b]), b, s[a], id);
    lemma_total_update(s, a, None, id);
    lemma_total_update(s.update(a, None), b, s[a], id);
}

} // verus!
