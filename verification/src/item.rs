//! Items and item stacks.

use vstd::prelude::*;
use crate::audio::str_eq;

verus! {

/// Item identifier.
pub type ItemId = u16;

/// Item id of the Dimensional Rift Engine, the one item that does not stack.
pub const RIFT_ENGINE_ITEM_ID: ItemId = 200;

/// Item category.
#[derive(Debug, Clone, Copy, PartialEq, Eq, Structural)]
pub enum ItemCategory {
    Tool,
    Weapon,
    Armor,
    Block,
    Food,
    Material,
    Equipment,
    Misc,
}

/// Tool kinds an item can be.
#[derive(Debug, Clone, Copy, PartialEq, Eq, Structural)]
pub enum ToolType {
    Pickaxe,
    Axe,
    Shovel,
    Sword,
    Hoe,
    Shears,
    FlintAndSteel,
    FishingRod,
    Bow,
    Crossbow,
}

/// How many of an item fit in one stack, as the item registry defines it:
/// the Dimensional Rift Engine does not stack, every other item stacks to 64.
pub open spec fn spec_max_stack(id: ItemId) -> u8 {
    if id == RIFT_ENGINE_ITEM_ID { 1 } else { 64 }
}

pub fn max_stack(id: ItemId) -> (m: u8)
    ensures
        m == spec_max_stack(id),
{
    if id == RIFT_ENGINE_ITEM_ID { 1 } else { 64 }
}

/// A stack of one kind of item.
#[derive(Debug, Clone, Copy, PartialEq, Eq, Structural)]
pub struct ItemStack {
    pub id: ItemId,
    pub count: u8,
}

/// Adding `n` items to stack `st`: as many as fit below the stack limit go
/// in, the rest are left over.
pub open spec fn spec_stack_add(st: ItemStack, n: u8) -> (ItemStack, u8) {
    let room: int = if st.count < spec_max_stack(st.id) { spec_max_stack(st.id) - st.count } else { 0 };
    let t: int = if n <= room { n as int } else { room };
    (ItemStack { id: st.id, count: (st.count + t) as u8 }, (n - t) as u8)
}

/// Removing up to `n` items from stack `st`: the new stack and how many left it.
pub open spec fn spec_stack_remove(st: ItemStack, n: u8) -> (ItemStack, u8) {
    let r: int = if n <= st.count { n as int } else { st.count as int };
    (ItemStack { id: st.id, count: (st.count - r) as u8 }, r as u8)
}

impl ItemStack {
    pub fn new(id: ItemId, count: u8) -> (s: Self)
        ensures
            s == (ItemStack { id, count }),
    {
        ItemStack { id, count }
    }

    /// An empty stack (of air).
    pub fn empty() -> (s: Self)
        ensures
            s == (ItemStack { id: 0, count: 0 }),
    {
        ItemStack { id: 0, count: 0 }
    }

    pub fn is_empty(&self) -> (b: bool)
        ensures
            b == (self.count == 0),
    {
        self.count == 0
    }

    /// The stack limit of this stack's item.
    pub fn max_count(&self) -> (m: u8)
        ensures
            m == spec_max_stack(self.id),
    {
        max_stack(self.id)
    }

    /// Adds up to `n` items without passing the stack limit; returns how many
    /// were left over.
    pub fn add(&mut self, n: u8) -> (left: u8)
        ensures
            (*final(self), left) == spec_stack_add(*old(self), n),
    {
        let max = max_stack(self.id);
        let room: u8 = if self.count < max { max - self.count } else { 0 };
        let t: u8 = if n <= room { n } else { room };
        self.count = self.count + t;
        n - t
    }

    /// Removes up to `n` items; returns how many were removed.
    pub fn remove(&mut self, n: u8) -> (removed: u8)
        ensures
            (*final(self), removed) == spec_stack_remove(*old(self), n),
    {
        let r: u8 = if n <= self.count { n } else { self.count };
        self.count = self.count - r;
        r
    }
}

/// An item's definition. Its combat and food stats (damage, armour, food
/// points, saturation) are numbers of type `F`, floating point in the game;
/// the registry only stores them.
#[derive(Debug, Clone)]
pub struct ItemDef<F> {
    pub id: u16,
    pub name: String,
    pub category: ItemCategory,
    pub stackable: bool,
    pub max_stack: u8,
    pub durability: Option<u16>,
    pub damage: Option<F>,
    pub armor_bonus: Option<F>,
    pub food_points: Option<F>,
    pub saturation: Option<F>,
    pub tool_type: Option<ToolType>,
}

/// Whether `d` has no stats and is not a tool.
pub open spec fn is_plain<F>(d: ItemDef<F>) -> bool {
    &&& d.damage is None
    &&& d.armor_bonus is None
    &&& d.food_points is None
    &&& d.saturation is None
    &&& d.tool_type is None
}

/// Whether `d` is the filler that holds the places of unregistered ids: air,
/// id 0, a miscellaneous item stacking to 64.
pub open spec fn is_air<F>(d: ItemDef<F>) -> bool {
    &&& d.id == 0
    &&& d.name@ == "air"@
    &&& d.category == ItemCategory::Misc
    &&& d.stackable
    &&& d.max_stack == 64
    &&& d.durability is None
    &&& is_plain(d)
}

/// The filler definition.
fn air<F>() -> (d: ItemDef<F>)
    ensures
        is_air(d),
{
    plain_item(0, "air", ItemCategory::Misc)
}

/// A stackable item without stats, durability or tool kind.
fn plain_item<F>(id: u16, name: &str, category: ItemCategory) -> (d: ItemDef<F>)
    ensures
        d.id == id,
        d.name@ == name@,
        d.category == category,
        d.stackable,
        d.max_stack == 64,
        d.durability is None,
        is_plain(d),
{
    ItemDef {
        id,
        name: name.to_owned(),
        category,
        stackable: true,
        max_stack: 64,
        durability: None,
        damage: None,
        armor_bonus: None,
        food_points: None,
        saturation: None,
        tool_type: None,
    }
}

/// The ids of the items the game defines, in the order they are registered;
/// one crystal per dimension 1 to 13 takes ids 220 to 232.
pub open spec fn default_item_id(i: int) -> u16 {
    if i == 0 { 16 } else if i == 1 { 17 } else if i == 2 { 18 } else if i == 3 { 19 }
    else if i == 4 { 100 } else if i == 5 { 101 } else if i == 6 { 102 }
    else if i == 7 { 200 } else if i == 8 { 201 } else if i == 9 { 202 }
    else if i == 10 { 210 } else if i == 11 { 211 } else if i == 12 { 212 }
    else { (207 + i) as u16 }
}

/// The place, among the game's items, of the item with id `k`, or -1 when
/// the game defines no item `k`.
pub open spec fn default_item_index(k: int) -> int {
    if k == 16 { 0 } else if k == 17 { 1 } else if k == 18 { 2 } else if k == 19 { 3 }
    else if k == 100 { 4 } else if k == 101 { 5 } else if k == 102 { 6 }
    else if k == 200 { 7 } else if k == 201 { 8 } else if k == 202 { 9 }
    else if k == 210 { 10 } else if k == 211 { 11 } else if k == 212 { 12 }
    else if 220 <= k <= 232 { k - 207 } else { -1 }
}

/// The name of the `i`-th item the game defines.
pub open spec fn default_item_name(i: int) -> Seq<char> {
    if i == 0 { "coal_ore"@ } else if i == 1 { "iron_ore"@ } else if i == 2 { "gold_ore"@ }
    else if i == 3 { "diamond_ore"@ } else if i == 4 { "iron_ingot"@ } else if i == 5 { "gold_ingot"@ }
    else if i == 6 { "diamond_gem"@ } else if i == 7 { "dimensional_rift_engine"@ }
    else if i == 8 { "rift_crystal"@ } else if i == 9 { "void_shard"@ }
    else if i == 10 { "moon_portal_frame"@ } else if i == 11 { "mars_portal_frame"@ }
    else if i == 12 { "venus_portal_frame"@ } else if i == 13 { "moon_crystal"@ }
    else if i == 14 { "mars_crystal"@ } else if i == 15 { "venus_crystal"@ }
    else if i == 16 { "mercury_crystal"@ } else if i == 17 { "jupiter_crystal"@ }
    else if i == 18 { "saturn_crystal"@ } else if i == 19 { "neptune_crystal"@ }
    else if i == 20 { "pluto_crystal"@ } else if i == 21 { "asteroid_crystal"@ }
    else if i == 22 { "void_crystal"@ } else if i == 23 { "crystal_shard"@ }
    else if i == 24 { "ember_shard"@ } else { "frost_shard"@ }
}

/// The category of the `i`-th item the game defines: the coal ore and the
/// portal frames are blocks, the Rift Engine is equipment, the rest are
/// materials.
pub open spec fn default_item_category(i: int) -> ItemCategory {
    if i == 0 || i == 10 || i == 11 || i == 12 {
        ItemCategory::Block
    } else if i == 7 {
        ItemCategory::Equipment
    } else {
        ItemCategory::Material
    }
}

/// Whether `d` is the `i`-th item the game defines. All stack to 64 but the
/// Dimensional Rift Engine, which does not stack and wears out after 1000
/// uses; none has stats or is a tool.
pub open spec fn is_default_item<F>(d: ItemDef<F>, i: int) -> bool {
    &&& d.id == default_item_id(i)
    &&& d.name@ == default_item_name(i)
    &&& d.category == default_item_category(i)
    &&& d.stackable == (i != 7)
    &&& d.max_stack == (if i == 7 { 1u8 } else { 64u8 })
    &&& d.durability == (if i == 7 { Some(1000u16) } else { None })
    &&& is_plain(d)
}

/// What a list of (name, id) pairs maps each name to: the id of its last
/// pair.
pub open spec fn name_map(s: Seq<(String, u16)>) -> Map<Seq<char>, u16>
    decreases s.len(),
{
    if s.len() == 0 {
        Map::empty()
    } else {
        name_map(s.drop_last()).insert(s.last().0@, s.last().1)
    }
}

proof fn lemma_name_map_suffix(s: Seq<(String, u16)>, n: Seq<char>, i: int)
    requires
        0 <= i <= s.len(),
        forall|j: int| i <= j < s.len() ==> (#[trigger] s[j]).0@ != n,
    ensures
        name_map(s).get(n) == name_map(s.take(i)).get(n),
    decreases s.len(),
{
    if i == s.len() {
        assert(s.take(i) =~= s);
    } else {
        assert(s.drop_last().take(i) =~= s.take(i));
        lemma_name_map_suffix(s.drop_last(), n, i);
    }
}

proof fn lemma_name_map_replace(s: Seq<(String, u16)>, i: int, x: (String, u16))
    requires
        0 <= i < s.len(),
        s[i].0@ == x.0@,
        forall|j: int| i < j < s.len() ==> (#[trigger] s[j]).0@ != x.0@,
    ensures
        name_map(s.update(i, x)) == name_map(s).insert(x.0@, x.1),
    decreases s.len(),
{
    if i == s.len() - 1 {
        assert(s.update(i, x).drop_last() =~= s.drop_last());
        assert(name_map(s.update(i, x)) =~= name_map(s).insert(x.0@, x.1));
    } else {
        assert(s.update(i, x).drop_last() =~= s.drop_last().update(i, x));
        lemma_name_map_replace(s.drop_last(), i, x);
        assert(name_map(s.update(i, x)) =~= name_map(s).insert(x.0@, x.1));
    }
}

/// The item definitions, each at the index of its id, and the name of every
/// registered item with its id.
pub struct ItemRegistry<F> {
    items: Vec<ItemDef<F>>,
    name_to_id: Vec<(String, u16)>,
}

impl<F> ItemRegistry<F> {
    /// The definitions by id; ids that were never registered hold air.
    pub closed spec fn defs(&self) -> Seq<ItemDef<F>> {
        self.items@
    }

    /// The id each registered name stands for.
    pub closed spec fn name_ids(&self) -> Map<Seq<char>, u16> {
        name_map(self.name_to_id@)
    }

    /// The registered item with id `id`: none where the id is past the
    /// definitions or holds air.
    pub open spec fn lookup(&self, id: u16) -> Option<ItemDef<F>> {
        if (id as int) < self.defs().len() && self.defs()[id as int].id != 0 {
            Some(self.defs()[id as int])
        } else {
            None
        }
    }

    /// Files `name` under `id`, replacing what it stood for.
    fn file_name(&mut self, name: String, id: u16)
        ensures
            final(self).defs() == old(self).defs(),
            final(self).name_ids() == old(self).name_ids().insert(name@, id),
    {
        let mut i: usize = self.name_to_id.len();
        while i > 0
            invariant
                i <= self.name_to_id.len(),
                self.name_to_id@ == old(self).name_to_id@,
                self.items@ == old(self).items@,
                forall|j: int| i <= j < self.name_to_id.len() ==> (#[trigger] self.name_to_id@[j]).0@ != name@,
            decreases i,
        {
            if self.name_to_id[i - 1].0 == name {
                let ghost s = self.name_to_id@;
                proof {
                    lemma_name_map_replace(s, i - 1, (name, id));
                }
                self.name_to_id.set(i - 1, (name, id));
                return;
            }
            i = i - 1;
        }
        let ghost s = self.name_to_id@;
        self.name_to_id.push((name, id));
        assert(self.name_to_id@.drop_last() =~= s);
    }

    /// Stores `item` at the index of its id, filling the ids below it that
    /// were never registered with air, and files its name under its id.
    pub fn register(&mut self, item: ItemDef<F>)
        ensures
            final(self).name_ids() == old(self).name_ids().insert(item.name@, item.id),
            final(self).defs().len() == (if old(self).defs().len() <= item.id { item.id + 1 } else { old(self).defs().len() as int }),
            final(self).defs()[item.id as int] == item,
            forall|i: int| 0 <= i < final(self).defs().len() && i != item.id ==>
                if i < old(self).defs().len() {
                    #[trigger] final(self).defs()[i] == old(self).defs()[i]
                } else {
                    is_air(final(self).defs()[i])
                },
    {
        let id = item.id;
        self.file_name(item.name.clone(), id);
        let ghost before = self.items@;
        while self.items.len() <= id as usize
            invariant
                before.len() <= self.items.len() <= (if before.len() <= id { id + 1 } else { before.len() as int }),
                forall|i: int| 0 <= i < before.len() ==> #[trigger] self.items@[i] == before[i],
                forall|i: int| before.len() <= i < self.items.len() ==> is_air(#[trigger] self.items@[i]),
                self.name_ids() == old(self).name_ids().insert(item.name@, item.id),
                before == old(self).defs(),
            decreases id as usize + 1 - self.items.len(),
        {
            self.items.push(air());
        }
        self.items.set(id as usize, item);
    }

    /// The registered item with id `id`.
    pub fn get(&self, id: u16) -> (r: Option<&ItemDef<F>>)
        ensures
            match r {
                Some(d) => self.lookup(id) == Some(*d),
                None => self.lookup(id) is None,
            },
    {
        if (id as usize) < self.items.len() && self.items[id as usize].id != 0 {
            Some(&self.items[id as usize])
        } else {
            None
        }
    }

    /// The id filed under `name`.
    pub fn get_id(&self, name: &str) -> (r: Option<u16>)
        ensures
            r == self.name_ids().get(name@),
    {
        let mut i: usize = self.name_to_id.len();
        while i > 0
            invariant
                i <= self.name_to_id.len(),
                forall|j: int| i <= j < self.name_to_id.len() ==> (#[trigger] self.name_to_id@[j]).0@ != name@,
            decreases i,
        {
            let entry = &self.name_to_id[i - 1];
            if str_eq(entry.0.as_str(), name) {
                proof {
                    let s = self.name_to_id@;
                    lemma_name_map_suffix(s, name@, i as int);
                    assert(s.take(i as int).drop_last() =~= s.take(i - 1));
                }
                return Some(entry.1);
            }
            i = i - 1;
        }
        proof {
            lemma_name_map_suffix(self.name_to_id@, name@, 0);
        }
        None
    }

    /// The registered item filed under `name`.
    pub fn get_by_name(&self, name: &str) -> (r: Option<&ItemDef<F>>)
        ensures
            match self.name_ids().get(name@) {
                Some(id) => match r {
                    Some(d) => self.lookup(id) == Some(*d),
                    None => self.lookup(id) is None,
                },
                None => r is None,
            },
    {
        match self.get_id(name) {
            Some(id) => self.get(id),
            None => None,
        }
    }

    /// A registry holding the game's items.
    pub fn new() -> (r: Self)
        ensures
            r.defs().len() == 233,
            forall|k: int| 0 <= k < 233 ==> if default_item_index(k) >= 0 {
                is_default_item(#[trigger] r.defs()[k], default_item_index(k))
            } else {
                is_air(r.defs()[k])
            },
            r.name_ids() == map![
                "coal_ore"@ => 16u16, "iron_ore"@ => 17u16, "gold_ore"@ => 18u16, "diamond_ore"@ => 19u16,
                "iron_ingot"@ => 100u16, "gold_ingot"@ => 101u16, "diamond_gem"@ => 102u16,
                "dimensional_rift_engine"@ => 200u16, "rift_crystal"@ => 201u16, "void_shard"@ => 202u16,
                "moon_portal_frame"@ => 210u16, "mars_portal_frame"@ => 211u16, "venus_portal_frame"@ => 212u16,
                "moon_crystal"@ => 220u16, "mars_crystal"@ => 221u16, "venus_crystal"@ => 222u16,
                "mercury_crystal"@ => 223u16, "jupiter_crystal"@ => 224u16, "saturn_crystal"@ => 225u16,
                "neptune_crystal"@ => 226u16, "pluto_crystal"@ => 227u16, "asteroid_crystal"@ => 228u16,
                "void_crystal"@ => 229u16, "crystal_shard"@ => 230u16, "ember_shard"@ => 231u16,
                "frost_shard"@ => 232u16
            ],
    {
        let mut registry = ItemRegistry { items: Vec::new(), name_to_id: Vec::new() };
        assert(registry.name_ids() =~= Map::empty());
        registry.register_items();
        registry
    }

    /// Registers the game's items: the ores, ingots and gems, the dimensional
    /// travel items, the portal frames and the dimension crystals.
    #[verifier::rlimit(60)]
    fn register_items(&mut self)
        requires
            old(self).defs().len() == 0,
            old(self).name_ids() == Map::<Seq<char>, u16>::empty(),
        ensures
            final(self).defs().len() == 233,
            forall|k: int| 0 <= k < 233 ==> if default_item_index(k) >= 0 {
                is_default_item(#[trigger] final(self).defs()[k], default_item_index(k))
            } else {
                is_air(final(self).defs()[k])
            },
            final(self).name_ids() == map![
                "coal_ore"@ => 16u16, "iron_ore"@ => 17u16, "gold_ore"@ => 18u16, "diamond_ore"@ => 19u16,
                "iron_ingot"@ => 100u16, "gold_ingot"@ => 101u16, "diamond_gem"@ => 102u16,
                "dimensional_rift_engine"@ => 200u16, "rift_crystal"@ => 201u16, "void_shard"@ => 202u16,
                "moon_portal_frame"@ => 210u16, "mars_portal_frame"@ => 211u16, "venus_portal_frame"@ => 212u16,
                "moon_crystal"@ => 220u16, "mars_crystal"@ => 221u16, "venus_crystal"@ => 222u16,
                "mercury_crystal"@ => 223u16, "jupiter_crystal"@ => 224u16, "saturn_crystal"@ => 225u16,
                "neptune_crystal"@ => 226u16, "pluto_crystal"@ => 227u16, "asteroid_crystal"@ => 228u16,
                "void_crystal"@ => 229u16, "crystal_shard"@ => 230u16, "ember_shard"@ => 231u16,
                "frost_shard"@ => 232u16
            ],
    {
        // Ores
        self.register(plain_item(16, "coal_ore", ItemCategory::Block));
        self.register(plain_item(17, "iron_ore", ItemCategory::Material));
        self.register(plain_item(18, "gold_ore", ItemCategory::Material));
        self.register(plain_item(19, "diamond_ore", ItemCategory::Material));
        // Ingots and gems
        self.register(plain_item(100, "iron_ingot", ItemCategory::Material));
        self.register(plain_item(101, "gold_ingot", ItemCategory::Material));
        self.register(plain_item(102, "diamond_gem", ItemCategory::Material));
        // Dimensional travel: the Rift Engine wears out after 1000 uses
        self.register(ItemDef {
            id: 200,
            name: "dimensional_rift_engine".to_owned(),
            category: ItemCategory::Equipment,
            stackable: false,
            max_stack: 1,
            durability: Some(1000),
            damage: None,
            armor_bonus: None,
            food_points: None,
            saturation: None,
            tool_type: None,
        });
        self.register(plain_item(201, "rift_crystal", ItemCategory::Material));
        self.register(plain_item(202, "void_shard", ItemCategory::Material));
        // Portal frames
        self.register(plain_item(210, "moon_portal_frame", ItemCategory::Block));
        self.register(plain_item(211, "mars_portal_frame", ItemCategory::Block));
        self.register(plain_item(212, "venus_portal_frame", ItemCategory::Block));
        // Dimension crystals, the fuel of dimensional travel
        self.register(plain_item(220, "moon_crystal", ItemCategory::Material));
        self.register(plain_item(221, "mars_crystal", ItemCategory::Material));
        self.register(plain_item(222, "venus_crystal", ItemCategory::Material));
        self.register(plain_item(223, "mercury_crystal", ItemCategory::Material));
        self.register(plain_item(224, "jupiter_crystal", ItemCategory::Material));
        self.register(plain_item(225, "saturn_crystal", ItemCategory::Material));
        self.register(plain_item(226, "neptune_crystal", ItemCategory::Material));
        self.register(plain_item(227, "pluto_crystal", ItemCategory::Material));
        self.register(plain_item(228, "asteroid_crystal", ItemCategory::Material));
        self.register(plain_item(229, "void_crystal", ItemCategory::Material));
        self.register(plain_item(230, "crystal_shard", ItemCategory::Material));
        self.register(plain_item(231, "ember_shard", ItemCategory::Material));
        self.register(plain_item(232, "frost_shard", ItemCategory::Material));
    }
}

impl<F> Default for ItemRegistry<F> {
    fn default() -> (r: Self)
        ensures
            r.defs().len() == 233,
            forall|k: int| 0 <= k < 233 ==> if default_item_index(k) >= 0 {
                is_default_item(#[trigger] r.defs()[k], default_item_index(k))
            } else {
                is_air(r.defs()[k])
            },
    {
        Self::new()
    }
}

} // verus!
