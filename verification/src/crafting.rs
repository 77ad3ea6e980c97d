//! Recipes, the crafting grid, and crafting from the inventory.

use vstd::prelude::*;
use crate::item::ItemId;
use crate::inventory::{Inventory, total, holds_id, spec_slot_remove, cnt, lemma_total_update};

verus! {

/// One ingredient of a recipe.
#[derive(Debug, Clone, Copy, PartialEq, Eq, Structural)]
pub struct Ingredient {
    pub item_id: ItemId,
    pub count: u8,
}

/// What a recipe makes.
#[derive(Debug, Clone, Copy, PartialEq, Eq, Structural)]
pub struct RecipeResult {
    pub item_id: ItemId,
    pub count: u8,
}

/// Whether a recipe needs its ingredients laid out.
#[derive(Debug, Clone, Copy, PartialEq, Eq, Structural)]
pub enum RecipeShape {
    /// Ingredients in any arrangement.
    Shapeless,
    /// Ingredients in a pattern of the given size.
    Shaped { width: usize, height: usize },
}

/// A recipe as a mathematical value.
pub struct RecipeView {
    pub id: u32,
    pub name: Seq<char>,
    pub shape: RecipeShape,
    pub ingredients: Seq<Ingredient>,
    pub result: RecipeResult,
}

/// A crafting recipe.
#[derive(Debug)]
pub struct Recipe {
    pub id: u32,
    pub name: String,
    pub shape: RecipeShape,
    pub ingredients: Vec<Ingredient>,
    pub result: RecipeResult,
}

impl View for Recipe {
    type V = RecipeView;

    open spec fn view(&self) -> RecipeView {
        RecipeView {
            id: self.id,
            name: self.name@,
            shape: self.shape,
            ingredients: self.ingredients@,
            result: self.result,
        }
    }
}

impl Recipe {
    /// A shapeless recipe with id 0.
    pub fn shapeless(name: &str, ingredients: Vec<Ingredient>, result: (ItemId, u8)) -> (r: Self)
        ensures
            r@ == (RecipeView {
                id: 0,
                name: name@,
                shape: RecipeShape::Shapeless,
                ingredients: ingredients@,
                result: RecipeResult { item_id: result.0, count: result.1 },
            }),
    {
        Recipe {
            id: 0,
            name: name.to_owned(),
            shape: RecipeShape::Shapeless,
            ingredients,
            result: RecipeResult { item_id: result.0, count: result.1 },
        }
    }

    /// A shaped recipe of the given size with id 0.
    pub fn shaped(name: &str, width: usize, height: usize, ingredients: Vec<Ingredient>, result: (ItemId, u8)) -> (r: Self)
        ensures
            r@ == (RecipeView {
                id: 0,
                name: name@,
                shape: RecipeShape::Shaped { width, height },
                ingredients: ingredients@,
                result: RecipeResult { item_id: result.0, count: result.1 },
            }),
    {
        Recipe {
            id: 0,
            name: name.to_owned(),
            shape: RecipeShape::Shaped { width, height },
            ingredients,
            result: RecipeResult { item_id: result.0, count: result.1 },
        }
    }
}

/// A grid of item slots, `width` by `height`, stored row after row.
#[derive(Debug, Clone)]
pub struct CraftingGrid {
    slots: Vec<Option<ItemId>>,
    width: usize,
    height: usize,
}

impl View for CraftingGrid {
    type V = Seq<Option<ItemId>>;

    /// The slots row after row: slot (x, y) is at `x + y * width`.
    closed spec fn view(&self) -> Seq<Option<ItemId>> {
        self.slots@
    }
}

impl CraftingGrid {
    /// The grid holds one slot per cell.
    pub closed spec fn wf(&self) -> bool {
        self.slots@.len() == self.width * self.height
    }

    pub closed spec fn spec_width(&self) -> usize {
        self.width
    }

    pub closed spec fn spec_height(&self) -> usize {
        self.height
    }

    /// An empty grid of the given size.
    pub fn new(width: usize, height: usize) -> (g: Self)
        requires
            width * height <= usize::MAX,
        ensures
            g.wf(),
            g.spec_width() == width,
            g.spec_height() == height,
            g@.len() == width * height,
            forall|i: int| 0 <= i < g@.len() ==> (#[trigger] g@[i]).is_none(),
    {
        let n = width * height;
        let mut slots: Vec<Option<ItemId>> = Vec::new();
        let mut i: usize = 0;
        while i < n
            invariant
                i <= n,
                slots@.len() == i,
                forall|j: int| 0 <= j < i ==> (#[trigger] slots@[j]).is_none(),
            decreases n - i,
        {
            slots.push(None);
            i = i + 1;
        }
        CraftingGrid { slots, width, height }
    }

    /// Puts `item_id` into cell (x, y); a cell outside the grid is ignored.
    pub fn set_slot(&mut self, x: usize, y: usize, item_id: Option<ItemId>)
        requires
            old(self).wf(),
        ensures
            final(self).wf(),
            final(self).spec_width() == old(self).spec_width(),
            final(self).spec_height() == old(self).spec_height(),
            final(self)@ == (if x < old(self).spec_width() && y < old(self).spec_height() {
                old(self)@.update(x + y * old(self).spec_width(), item_id)
            } else {
                old(self)@
            }),
    {
        if x < self.width && y < self.height {
            proof {
                lemma_cell_index(x as int, y as int, self.width as int, self.height as int);
                assert(self.slots@.len() == self.width * self.height);
                assert(self.slots.len() <= usize::MAX);
            }
            let idx = x + y * self.width;
            self.slots.set(idx, item_id);
        }
    }

    /// The item in cell (x, y); none outside the grid.
    pub fn get_slot(&self, x: usize, y: usize) -> (r: Option<ItemId>)
        requires
            self.wf(),
        ensures
            r == (if x < self.spec_width() && y < self.spec_height() {
                self@[x + y * self.spec_width()]
            } else {
                None
            }),
            r == cell(*self, x as int, y as int),
    {
        if x < self.width && y < self.height {
            proof {
                lemma_cell_index(x as int, y as int, self.width as int, self.height as int);
                assert(self.slots@.len() == self.width * self.height);
                assert(self.slots.len() <= usize::MAX);
            }
            self.slots[x + y * self.width]
        } else {
            None
        }
    }

    /// Empties every cell.
    pub fn clear(&mut self)
        requires
            old(self).wf(),
        ensures
            final(self).wf(),
            final(self).spec_width() == old(self).spec_width(),
            final(self).spec_height() == old(self).spec_height(),
            final(self)@.len() == old(self)@.len(),
            forall|i: int| 0 <= i < final(self)@.len() ==> (#[trigger] final(self)@[i]).is_none(),
    {
        let n = self.slots.len();
        let mut i: usize = 0;
        while i < n
            invariant
                n == self.slots@.len(),
                n == self.width * self.height,
                self.width == old(self).width,
                self.height == old(self).height,
                i <= n,
                forall|j: int| 0 <= j < i ==> (#[trigger] self.slots@[j]).is_none(),
            decreases n - i,
        {
            self.slots.set(i, None);
            i = i + 1;
        }
    }

    pub fn width(&self) -> (w: usize)
        ensures
            w == self.spec_width(),
    {
        self.width
    }

    pub fn height(&self) -> (h: usize)
        ensures
            h == self.spec_height(),
    {
        self.height
    }
}

impl Default for CraftingGrid {
    fn default() -> (g: Self)
        ensures
            g.wf(),
            g.spec_width() == 0,
            g.spec_height() == 0,
            g@.len() == 0,
    {
        CraftingGrid { slots: Vec::new(), width: 0, height: 0 }
    }
}

/// Cell (x, y) of a `w` by `h` grid lies inside its `w * h` slots.
/// What cell (`a`, `b`) of `g` holds: the slot at `a + b * width` inside
/// the grid, nothing outside it.
pub open spec fn cell(g: CraftingGrid, a: int, b: int) -> Option<ItemId> {
    if 0 <= a < g.spec_width() && 0 <= b < g.spec_height() {
        g@[a + b * g.spec_width()]
    } else {
        None
    }
}

/// A well-formed grid holds width times height slots.
pub proof fn lemma_grid_len(g: CraftingGrid)
    requires
        g.wf(),
    ensures
        g@.len() == g.spec_width() * g.spec_height(),
{
}

/// Two different cells inside a grid sit at different slots.
proof fn lemma_cells_apart(x: int, y: int, a: int, b: int, w: int, h: int)
    requires
        0 <= x < w,
        0 <= y < h,
        0 <= a < w,
        0 <= b < h,
        x != a || y != b,
    ensures
        x + y * w != a + b * w,
{
    if y == b {
    } else if y < b {
        assert(y * w + w <= b * w) by (nonlinear_arith)
            requires
                y < b,
                0 <= w,
        ;
    } else {
        assert(b * w + w <= y * w) by (nonlinear_arith)
            requires
                b < y,
                0 <= w,
        ;
    }
}

/// Reading a cell after writing one: the written cell gives the written item
/// (nothing when it lies outside the grid), every other cell what it held.
pub proof fn law_grid_read_after_write(
    before: CraftingGrid,
    after: CraftingGrid,
    x: usize,
    y: usize,
    item: Option<ItemId>,
    a: int,
    b: int,
)
    requires
        before.wf(),
        after.spec_width() == before.spec_width(),
        after.spec_height() == before.spec_height(),
        after@ == (if x < before.spec_width() && y < before.spec_height() {
            before@.update(x + y * before.spec_width(), item)
        } else {
            before@
        }),
    ensures
        cell(after, x as int, y as int) == (if x < before.spec_width() && y < before.spec_height() { item } else { None }),
        a != x || b != y ==> cell(after, a, b) == cell(before, a, b),
{
    let w = before.spec_width() as int;
    let h = before.spec_height() as int;
    if x < w && y < h {
        lemma_cell_index(x as int, y as int, w, h);
        if 0 <= a < w && 0 <= b < h && (a != x || b != y) {
            lemma_cell_index(a, b, w, h);
            lemma_cells_apart(x as int, y as int, a, b, w, h);
        }
    }
}

proof fn lemma_cell_index(x: int, y: int, w: int, h: int)
    requires
        0 <= x < w,
        0 <= y < h,
    ensures
        0 <= y * w,
        0 <= x + y * w < w * h,
{
    assert(0 <= y * w) by (nonlinear_arith)
        requires
            0 <= y,
            0 <= w,
    ;
    assert(x + y * w < w * h) by (nonlinear_arith)
        requires
            0 <= x < w,
            0 <= y < h,
    ;
}

/// Shorthand for an ingredient value.
pub open spec fn ing(item_id: ItemId, count: u8) -> Ingredient {
    Ingredient { item_id, count }
}

/// The recipe value with the given fields.
pub open spec fn recipe_view(id: u32, name: Seq<char>, shape: RecipeShape, ingredients: Seq<Ingredient>, item_id: ItemId, count: u8) -> RecipeView {
    RecipeView { id, name, shape, ingredients, result: RecipeResult { item_id, count } }
}

pub open spec fn shaped(width: usize, height: usize) -> RecipeShape {
    RecipeShape::Shaped { width, height }
}

/// The recipe book, in order: planks, crafting table, sticks, wooden pickaxe,
/// torch, the Dimensional Rift Engine, the moon, mars and venus crystals, the
/// rift crystal, the void shard, and the moon, mars and venus portal frames.
pub open spec fn standard_recipes() -> Seq<RecipeView> {
    seq![
        recipe_view(0, "Wooden Planks"@, RecipeShape::Shapeless, seq![ing(6, 1)], 7, 4),
        recipe_view(1, "Crafting Table"@, shaped(2, 2), seq![ing(7, 1), ing(7, 1), ing(7, 1), ing(7, 1)], 20, 1),
        recipe_view(2, "Sticks"@, RecipeShape::Shapeless, seq![ing(7, 2)], 21, 4),
        recipe_view(3, "Wooden Pickaxe"@, shaped(3, 3), seq![ing(7, 1), ing(7, 1), ing(7, 1), ing(21, 1), ing(21, 1), ing(21, 1)], 22, 1),
        recipe_view(4, "Torch"@, shaped(1, 3), seq![ing(23, 1), ing(21, 1)], 24, 4),
        recipe_view(5, "Dimensional Rift Engine"@, shaped(3, 3), seq![
            ing(100, 1), ing(100, 1), ing(100, 1),
            ing(101, 1), ing(102, 1), ing(101, 1),
            ing(100, 1), ing(100, 1), ing(100, 1),
        ], 200, 1),
        recipe_view(6, "Moon Crystal"@, shaped(2, 2), seq![ing(201, 1), ing(22, 1), ing(202, 1)], 220, 2),
        recipe_view(7, "Mars Crystal"@, shaped(2, 2), seq![ing(201, 1), ing(19, 1), ing(202, 1)], 221, 2),
        recipe_view(8, "Venus Crystal"@, shaped(2, 2), seq![ing(201, 1), ing(18, 1), ing(202, 1)], 222, 2),
        recipe_view(9, "Rift Crystal"@, RecipeShape::Shapeless, seq![ing(100, 4), ing(101, 2), ing(102, 1)], 201, 4),
        recipe_view(10, "Void Shard"@, RecipeShape::Shapeless, seq![ing(102, 1), ing(17, 4)], 202, 2),
        recipe_view(11, "Moon Portal Frame"@, shaped(3, 3), seq![
            ing(220, 1), ing(100, 1), ing(100, 1), ing(100, 1), ing(100, 1),
            ing(100, 1), ing(100, 1), ing(100, 1), ing(100, 1),
        ], 210, 4),
        recipe_view(12, "Mars Portal Frame"@, shaped(3, 3), seq![
            ing(221, 1), ing(18, 1), ing(18, 1), ing(18, 1), ing(18, 1),
            ing(18, 1), ing(18, 1), ing(18, 1), ing(18, 1),
        ], 211, 4),
        recipe_view(13, "Venus Portal Frame"@, shaped(3, 3), seq![
            ing(222, 1), ing(19, 1), ing(19, 1), ing(19, 1), ing(19, 1),
            ing(19, 1), ing(19, 1), ing(19, 1), ing(19, 1),
        ], 212, 4),
    ]
}

/// The index of the first slot, at `i` or later, that holds a stack of `id`;
/// -1 when there is none.
pub open spec fn first_from(s: Seq<Option<crate::item::ItemStack>>, id: ItemId, i: int) -> int
    decreases s.len() - i,
{
    if i < 0 || i >= s.len() {
        -1
    } else if holds_id(s[i], id) {
        i
    } else {
        first_from(s, id, i + 1)
    }
}

/// Taking `rem` of item `id` out of the slots `s` in at most `fuel` steps:
/// each step takes what it can from the first slot holding the item.
/// The new slots and how many are still owed.
pub open spec fn consume_steps(s: Seq<Option<crate::item::ItemStack>>, id: ItemId, rem: u8, fuel: nat) -> (Seq<Option<crate::item::ItemStack>>, u8)
    decreases fuel,
{
    if fuel == 0 || rem == 0 {
        (s, rem)
    } else {
        let i = first_from(s, id, 0);
        if i < 0 {
            consume_steps(s, id, rem, (fuel - 1) as nat)
        } else {
            let c: u8 = match s[i] {
                Some(st) => st.count,
                None => 0u8,
            };
            let r: u8 = if rem <= c { rem } else { c };
            consume_steps(s.update(i, spec_slot_remove(s[i], r).0), id, (rem - r) as u8, (fuel - 1) as nat)
        }
    }
}

/// The slots after taking the first `k` ingredients out, one after another,
/// each in at most as many steps as there are slots.
pub open spec fn consume_all(s: Seq<Option<crate::item::ItemStack>>, ings: Seq<Ingredient>, k: int) -> Seq<Option<crate::item::ItemStack>>
    decreases k,
{
    if k <= 0 {
        s
    } else {
        let t = consume_all(s, ings, k - 1);
        consume_steps(t, ings[k - 1].item_id, ings[k - 1].count, t.len()).0
    }
}

/// The inventory `s` holds, of every ingredient's item, as many as all the
/// entries for that item ask for together.
pub open spec fn has_ingredients(s: Seq<Option<crate::item::ItemStack>>, ings: Seq<Ingredient>) -> bool {
    forall|i: int| 0 <= i < ings.len() ==> total(s, (#[trigger] ings[i]).item_id) >= needed(ings, ings.len() as int, ings[i].item_id)
}

/// An item no entry asks for is needed zero times.
proof fn lemma_needed_absent(ings: Seq<Ingredient>, k: int, id: ItemId)
    requires
        k <= ings.len(),
        forall|i: int| 0 <= i < k ==> (#[trigger] ings[i]).item_id != id,
    ensures
        needed(ings, k, id) == 0,
    decreases k,
{
    if k > 0 {
        lemma_needed_absent(ings, k - 1, id);
    }
}

/// Holding every ingredient's item in the needed number means holding every
/// item in the needed number.
pub proof fn lemma_has_ingredients_all(s: Seq<Option<crate::item::ItemStack>>, ings: Seq<Ingredient>)
    requires
        has_ingredients(s, ings),
    ensures
        forall|x: ItemId| #[trigger] total(s, x) >= needed(ings, ings.len() as int, x),
{
    assert forall|x: ItemId| #[trigger] total(s, x) >= needed(ings, ings.len() as int, x) by {
        if exists|i: int| 0 <= i < ings.len() && (#[trigger] ings[i]).item_id == x {
            let i = choose|i: int| 0 <= i < ings.len() && (#[trigger] ings[i]).item_id == x;
            assert(total(s, ings[i].item_id) >= needed(ings, ings.len() as int, ings[i].item_id));
        } else {
            lemma_needed_absent(ings, ings.len() as int, x);
        }
    }
}

/// Whether the inventory holds, of item `id`, as many as all the entries of
/// `ings` ask for together.
fn holds_needed(inventory: &Inventory, ings: &Vec<Ingredient>, id: ItemId) -> (b: bool)
    requires
        inventory.counts_fit(),
    ensures
        b == (total(inventory@, id) >= needed(ings@, ings@.len() as int, id)),
{
    assert(total(inventory@, id) <= u32::MAX);
    let t: u64 = inventory.count_item(id) as u64;
    let mut sum: u64 = 0;
    let mut k: usize = 0;
    while k < ings.len()
        invariant
            k <= ings@.len(),
            sum == needed(ings@, k as int, id),
            sum <= t,
            t == total(inventory@, id),
            t <= u32::MAX,
        decreases ings@.len() - k,
    {
        let g = ings[k];
        if g.item_id == id {
            sum = sum + g.count as u64;
        }
        k = k + 1;
        if sum > t {
            proof {
                lemma_needed_monotone(ings@, k as int, ings@.len() as int, id);
            }
            return false;
        }
    }
    true
}

/// An ingredient list of one entry.
fn single_ingredient(item_id: ItemId, count: u8) -> (v: Vec<Ingredient>)
    ensures
        v@ == seq![ing(item_id, count)],
{
    let mut v = Vec::new();
    v.push(Ingredient { item_id, count });
    v
}

/// The recipe book.
pub struct CraftingManager {
    recipes: Vec<Recipe>,
}

impl View for CraftingManager {
    type V = Seq<RecipeView>;

    closed spec fn view(&self) -> Seq<RecipeView> {
        self.recipes@.map_values(|r: Recipe| r@)
    }
}

impl CraftingManager {
    /// The recipe book with the standard recipes.
    pub fn new() -> (m: Self)
        ensures
            m@ == standard_recipes(),
    {
        let mut manager = CraftingManager { recipes: Vec::new() };
        manager.init_recipes();
        manager
    }

    fn init_recipes(&mut self)
        requires
            old(self)@.len() == 0,
        ensures
            final(self)@ == standard_recipes(),
    {
        self.add_recipe(Recipe::shapeless("Wooden Planks", single_ingredient(6, 1), (7, 4)));
        assert(self@ =~= standard_recipes().take(1));
        self.add_recipe(Recipe::shaped("Crafting Table", 2, 2, vec![
            Ingredient { item_id: 7, count: 1 },
            Ingredient { item_id: 7, count: 1 },
            Ingredient { item_id: 7, count: 1 },
            Ingredient { item_id: 7, count: 1 },
        ], (20, 1)));
        assert(self@ =~= standard_recipes().take(2));
        self.add_recipe(Recipe::shapeless("Sticks", single_ingredient(7, 2), (21, 4)));
        assert(self@ =~= standard_recipes().take(3));
        self.add_recipe(Recipe::shaped("Wooden Pickaxe", 3, 3, vec![
            Ingredient { item_id: 7, count: 1 },
            Ingredient { item_id: 7, count: 1 },
            Ingredient { item_id: 7, count: 1 },
            Ingredient { item_id: 21, count: 1 },
            Ingredient { item_id: 21, count: 1 },
            Ingredient { item_id: 21, count: 1 },
        ], (22, 1)));
        assert(self@ =~= standard_recipes().take(4));
        self.add_recipe(Recipe::shaped("Torch", 1, 3, vec![
            Ingredient { item_id: 23, count: 1 },
            Ingredient { item_id: 21, count: 1 },
        ], (24, 4)));
        assert(self@ =~= standard_recipes().take(5));
        // Iron frame top and bottom, gold-diamond-gold core in the middle.
        self.add_recipe(Recipe::shaped("Dimensional Rift Engine", 3, 3, vec![
            Ingredient { item_id: 100, count: 1 },
            Ingredient { item_id: 100, count: 1 },
            Ingredient { item_id: 100, count: 1 },
            Ingredient { item_id: 101, count: 1 },
            Ingredient { item_id: 102, count: 1 },
            Ingredient { item_id: 101, count: 1 },
            Ingredient { item_id: 100, count: 1 },
            Ingredient { item_id: 100, count: 1 },
            Ingredient { item_id: 100, count: 1 },
        ], (200, 1)));
        assert(self@ =~= standard_recipes().take(6));
        self.add_recipe(Recipe::shaped("Moon Crystal", 2, 2, vec![
            Ingredient { item_id: 201, count: 1 },
            Ingredient { item_id: 22, count: 1 },
            Ingredient { item_id: 202, count: 1 },
        ], (220, 2)));
        assert(self@ =~= standard_recipes().take(7));
        self.add_recipe(Recipe::shaped("Mars Crystal", 2, 2, vec![
            Ingredient { item_id: 201, count: 1 },
            Ingredient { item_id: 19, count: 1 },
            Ingredient { item_id: 202, count: 1 },
        ], (221, 2)));
        assert(self@ =~= standard_recipes().take(8));
        self.add_recipe(Recipe::shaped("Venus Crystal", 2, 2, vec![
            Ingredient { item_id: 201, count: 1 },
            Ingredient { item_id: 18, count: 1 },
            Ingredient { item_id: 202, count: 1 },
        ], (222, 2)));
        assert(self@ =~= standard_recipes().take(9));
        self.add_recipe(Recipe::shapeless("Rift Crystal", vec![
            Ingredient { item_id: 100, count: 4 },
            Ingredient { item_id: 101, count: 2 },
            Ingredient { item_id: 102, count: 1 },
        ], (201, 4)));
        assert(self@ =~= standard_recipes().take(10));
        self.add_recipe(Recipe::shapeless("Void Shard", vec![
            Ingredient { item_id: 102, count: 1 },
            Ingredient { item_id: 17, count: 4 },
        ], (202, 2)));
        assert(self@ =~= standard_recipes().take(11));
        self.add_recipe(Recipe::shaped("Moon Portal Frame", 3, 3, vec![
            Ingredient { item_id: 220, count: 1 },
            Ingredient { item_id: 100, count: 1 },
            Ingredient { item_id: 100, count: 1 },
            Ingredient { item_id: 100, count: 1 },
            Ingredient { item_id: 100, count: 1 },
            Ingredient { item_id: 100, count: 1 },
            Ingredient { item_id: 100, count: 1 },
            Ingredient { item_id: 100, count: 1 },
            Ingredient { item_id: 100, count: 1 },
        ], (210, 4)));
        assert(self@ =~= standard_recipes().take(12));
        self.add_recipe(Recipe::shaped("Mars Portal Frame", 3, 3, vec![
            Ingredient { item_id: 221, count: 1 },
            Ingredient { item_id: 18, count: 1 },
            Ingredient { item_id: 18, count: 1 },
            Ingredient { item_id: 18, count: 1 },
            Ingredient { item_id: 18, count: 1 },
            Ingredient { item_id: 18, count: 1 },
            Ingredient { item_id: 18, count: 1 },
            Ingredient { item_id: 18, count: 1 },
            Ingredient { item_id: 18, count: 1 },
        ], (211, 4)));
        assert(self@ =~= standard_recipes().take(13));
        self.add_recipe(Recipe::shaped("Venus Portal Frame", 3, 3, vec![
            Ingredient { item_id: 222, count: 1 },
            Ingredient { item_id: 19, count: 1 },
            Ingredient { item_id: 19, count: 1 },
            Ingredient { item_id: 19, count: 1 },
            Ingredient { item_id: 19, count: 1 },
            Ingredient { item_id: 19, count: 1 },
            Ingredient { item_id: 19, count: 1 },
            Ingredient { item_id: 19, count: 1 },
            Ingredient { item_id: 19, count: 1 },
        ], (212, 4)));
        assert(self@ =~= standard_recipes().take(14));
        assert(self@ =~= standard_recipes());
    }

    /// Appends a recipe, numbering it by its position.
    fn add_recipe(&mut self, recipe: Recipe)
        requires
            old(self)@.len() < u32::MAX,
        ensures
            final(self)@ == old(self)@.push(RecipeView { id: old(self)@.len() as u32, ..recipe@ }),
    {
        let mut recipe = recipe;
        recipe.id = self.recipes.len() as u32;
        self.recipes.push(recipe);
        assert(self@ =~= old(self)@.push(RecipeView { id: old(self)@.len() as u32, ..recipe@ }));
    }

    /// The recipes, in order.
    pub fn recipes(&self) -> (r: &[Recipe])
        ensures
            r@.map_values(|x: Recipe| x@) == self@,
    {
        self.recipes.as_slice()
    }

    /// Crafts recipe `recipe_id` from the inventory. The inventory must hold
    /// each ingredient's item in the number all the recipe's entries for it
    /// ask for together; then every ingredient in turn is taken from the
    /// first slots that hold it, each item's total drops by exactly that
    /// number, and the recipe's result is returned. Nothing is taken when the
    /// recipe does not exist or an ingredient is short.
    pub fn craft(&self, recipe_id: u32, inventory: &mut Inventory) -> (r: Option<(ItemId, u8)>)
        requires
            old(inventory).counts_fit(),
        ensures
            final(inventory).hotbar_len() == old(inventory).hotbar_len(),
            final(inventory).selected() == old(inventory).selected(),
            recipe_id >= self@.len() ==> r.is_none() && final(inventory)@ == old(inventory)@,
            recipe_id < self@.len() ==> ({
                let rec = self@[recipe_id as int];
                if has_ingredients(old(inventory)@, rec.ingredients) {
                    r == Some((rec.result.item_id, rec.result.count))
                        && final(inventory)@ == consume_all(old(inventory)@, rec.ingredients, rec.ingredients.len() as int)
                        && forall|id: ItemId| #[trigger] total(final(inventory)@, id)
                            == total(old(inventory)@, id) - needed(rec.ingredients, rec.ingredients.len() as int, id)
                } else {
                    r.is_none() && final(inventory)@ == old(inventory)@
                }
            }),
    {
        let idx = recipe_id as usize;
        if idx >= self.recipes.len() {
            return None;
        }
        let recipe = &self.recipes[idx];
        proof {
            assert(self@[recipe_id as int] == recipe@);
        }
        let ghost ings = recipe.ingredients@;
        let m = recipe.ingredients.len();
        let mut k: usize = 0;
        while k < m
            invariant
                m == ings.len(),
                ings == recipe.ingredients@,
                idx == recipe_id as usize,
                idx < self@.len(),
                self@[recipe_id as int] == recipe@,
                k <= m,
                inventory.counts_fit(),
                *inventory == *old(inventory),
                forall|i: int| 0 <= i < k ==> total(inventory@, (#[trigger] ings[i]).item_id) >= needed(ings, ings.len() as int, ings[i].item_id),
            decreases m - k,
        {
            let ingredient = recipe.ingredients[k];
            let id = ingredient.item_id;
            if !holds_needed(inventory, &recipe.ingredients, id) {
                proof {
                    assert(ings[k as int] == ingredient);
                    assert(!has_ingredients(old(inventory)@, ings));
                }
                return None;
            }
            k = k + 1;
        }
        let ghost s0 = inventory@;
        k = 0;
        while k < m
            invariant
                m == ings.len(),
                ings == recipe.ingredients@,
                idx == recipe_id as usize,
                idx < self@.len(),
                self@[recipe_id as int] == recipe@,
                k <= m,
                inventory@ == consume_all(s0, ings, k as int),
                inventory@.len() == s0.len(),
                inventory.hotbar_len() == old(inventory).hotbar_len(),
                inventory.selected() == old(inventory).selected(),
            decreases m - k,
        {
            let ingredient = recipe.ingredients[k];
            let id = ingredient.item_id;
            let n = inventory.size();
            let ghost t0 = inventory@;
            let mut remaining = ingredient.count;
            let mut j: usize = 0;
            while j < n && remaining != 0
                invariant
                    n == inventory@.len(),
                    n == t0.len(),
                    j <= n,
                    consume_steps(t0, id, ingredient.count, n as nat) == consume_steps(inventory@, id, remaining, (n - j) as nat),
                    inventory.hotbar_len() == old(inventory).hotbar_len(),
                    inventory.selected() == old(inventory).selected(),
                decreases n - j,
            {
                let ghost cur = inventory@;
                match inventory.find_item(id) {
                    Some(slot_index) => {
                        proof {
                            lemma_first_from_is(cur, id, slot_index as int);
                        }
                        let c = match inventory.get_slot(slot_index) {
                            Some(slot) => slot.count(),
                            None => 0,
                        };
                        let rc: u8 = if remaining <= c { remaining } else { c };
                        inventory.remove_item(slot_index, rc);
                        remaining = remaining - rc;
                    },
                    None => {
                        proof {
                            lemma_first_from_none(cur, id, 0);
                        }
                    },
                }
                j = j + 1;
            }
            proof {
                lemma_consume_steps_finished(inventory@, id, remaining, (n - j) as nat);
            }
            k = k + 1;
        }
        proof {
            lemma_has_ingredients_all(s0, ings);
            assert forall|id: ItemId| #[trigger] total(inventory@, id) == total(s0, id) - needed(ings, ings.len() as int, id) by {
                law_crafting_exact(s0, ings, ings.len() as int, id);
            }
        }
        Some((recipe.result.item_id, recipe.result.count))
    }

    /// The recipes the inventory holds enough for, the counts of entries for
    /// one item added up, in recipe order: exactly those `craft` accepts.
    pub fn find_craftable(&self, inventory: &Inventory) -> (r: Vec<&Recipe>)
        requires
            inventory.counts_fit(),
        ensures
            r@.map_values(|x: &Recipe| x@) == self@.filter(|rv: RecipeView| has_ingredients(inventory@, rv.ingredients)),
    {
        let mut out: Vec<&Recipe> = Vec::new();
        let n = self.recipes.len();
        let ghost pred = |rv: RecipeView| has_ingredients(inventory@, rv.ingredients);
        let mut i: usize = 0;
        while i < n
            invariant
                n == self@.len(),
                i <= n,
                inventory.counts_fit(),
                pred == (|rv: RecipeView| has_ingredients(inventory@, rv.ingredients)),
                out@.map_values(|x: &Recipe| x@) == self@.take(i as int).filter(pred),
            decreases n - i,
        {
            let recipe = &self.recipes[i];
            proof {
                assert(self@[i as int] == recipe@);
            }
            let m = recipe.ingredients.len();
            let mut ok = true;
            let mut k: usize = 0;
            while k < m
                invariant
                    m == recipe.ingredients@.len(),
                    k <= m,
                    inventory.counts_fit(),
                    ok == forall|q: int| 0 <= q < k ==> total(inventory@, (#[trigger] recipe.ingredients@[q]).item_id)
                        >= needed(recipe.ingredients@, recipe.ingredients@.len() as int, recipe.ingredients@[q].item_id),
                decreases m - k,
            {
                let ingredient = recipe.ingredients[k];
                let has = holds_needed(inventory, &recipe.ingredients, ingredient.item_id);
                ok = ok && has;
                k = k + 1;
            }
            proof {
                reveal_with_fuel(Seq::filter, 1);
                assert(self@.take(i as int + 1).drop_last() =~= self@.take(i as int));
                assert(pred(recipe@) == ok);
            }
            if ok {
                out.push(recipe);
            }
            proof {
                assert(out@.map_values(|x: &Recipe| x@) =~= self@.take(i as int + 1).filter(pred));
            }
            i = i + 1;
        }
        proof {
            assert(self@.take(n as int) =~= self@);
        }
        out
    }
}

/// The first slot from `i` on that holds the item is `j`, when no slot in
/// between holds it.
proof fn lemma_first_from_is(s: Seq<Option<crate::item::ItemStack>>, id: ItemId, j: int)
    requires
        0 <= j < s.len(),
        holds_id(s[j], id),
        forall|q: int| 0 <= q < j ==> !holds_id(#[trigger] s[q], id),
    ensures
        first_from(s, id, 0) == j,
{
    lemma_first_from_from(s, id, 0, j);
}

proof fn lemma_first_from_from(s: Seq<Option<crate::item::ItemStack>>, id: ItemId, i: int, j: int)
    requires
        0 <= i <= j < s.len(),
        holds_id(s[j], id),
        forall|q: int| 0 <= q < j ==> !holds_id(#[trigger] s[q], id),
    ensures
        first_from(s, id, i) == j,
    decreases j - i,
{
    if i < j {
        lemma_first_from_from(s, id, i + 1, j);
    }
}

proof fn lemma_first_from_none(s: Seq<Option<crate::item::ItemStack>>, id: ItemId, i: int)
    requires
        0 <= i,
        forall|q: int| 0 <= q < s.len() ==> !holds_id(#[trigger] s[q], id),
    ensures
        first_from(s, id, i) == -1,
    decreases s.len() - i,
{
    if i < s.len() {
        lemma_first_from_none(s, id, i + 1);
    }
}

proof fn lemma_consume_steps_finished(s: Seq<Option<crate::item::ItemStack>>, id: ItemId, rem: u8, fuel: nat)
    requires
        fuel == 0 || rem == 0,
    ensures
        consume_steps(s, id, rem, fuel) == (s, rem),
{
}


proof fn lemma_first_from_holds(s: Seq<Option<crate::item::ItemStack>>, id: ItemId, i: int)
    ensures
        first_from(s, id, i) == -1 || (0 <= first_from(s, id, i) < s.len() && holds_id(s[first_from(s, id, i)], id)),
    decreases s.len() - i,
{
    if 0 <= i < s.len() && !holds_id(s[i], id) {
        lemma_first_from_holds(s, id, i + 1);
    }
}

proof fn lemma_consume_steps_totals(s: Seq<Option<crate::item::ItemStack>>, id: ItemId, rem: u8, fuel: nat, other: ItemId)
    ensures
        total(consume_steps(s, id, rem, fuel).0, other) <= total(s, other),
        other != id ==> total(consume_steps(s, id, rem, fuel).0, other) == total(s, other),
        consume_steps(s, id, rem, fuel).0.len() == s.len(),
    decreases fuel,
{
    if fuel == 0 || rem == 0 {
    } else {
        let i = first_from(s, id, 0);
        lemma_first_from_holds(s, id, 0);
        if i < 0 {
            lemma_consume_steps_totals(s, id, rem, (fuel - 1) as nat, other);
        } else {
            let c: u8 = match s[i] {
                Some(st) => st.count,
                None => 0u8,
            };
            let r: u8 = if rem <= c { rem } else { c };
            let o = spec_slot_remove(s[i], r).0;
            lemma_total_update(s, i, o, other);
            lemma_consume_steps_totals(s.update(i, o), id, (rem - r) as u8, (fuel - 1) as nat, other);
        }
    }
}

/// How many of item `id` the first `k` ingredients ask for, all together.
pub open spec fn needed(ings: Seq<Ingredient>, k: int, id: ItemId) -> nat
    decreases k,
{
    if k <= 0 {
        0
    } else {
        needed(ings, k - 1, id) + (if ings[k - 1].item_id == id { ings[k - 1].count as nat } else { 0 })
    }
}

/// How many of item `x` recipe `r` takes, all its entries for `x` added up.
pub open spec fn takes(r: RecipeView, x: ItemId) -> nat {
    needed(r.ingredients, r.ingredients.len() as int, x)
}

/// The Sticks recipe (id 2) turns two wooden planks (item 7) into four sticks
/// (item 21): it can be made exactly when the inventory holds two planks or
/// more, and making it takes two planks and nothing else.
pub proof fn law_sticks_recipe(s: Seq<Option<crate::item::ItemStack>>)
    ensures
        standard_recipes().len() == 14,
        standard_recipes()[2].id == 2,
        standard_recipes()[2].result == (RecipeResult { item_id: 21, count: 4 }),
        has_ingredients(s, standard_recipes()[2].ingredients) == (total(s, 7) >= 2),
        total(s, 7) >= 2 ==> forall|x: ItemId| #[trigger] total(consume_all(s, standard_recipes()[2].ingredients, 1), x)
            == total(s, x) - (if x == 7 { 2nat } else { 0nat }),
{
    let ings = standard_recipes()[2].ingredients;
    assert(ings == seq![ing(7, 2)]);
    assert forall|x: ItemId| #[trigger] needed(ings, 1, x) == (if x == 7 { 2nat } else { 0nat }) by {
        assert(needed(ings, 0, x) == 0);
    }
    if total(s, 7) >= 2 {
        assert(has_ingredients(s, ings));
        lemma_has_ingredients_all(s, ings);
        assert forall|x: ItemId| #[trigger] total(consume_all(s, ings, 1), x) == total(s, x) - (if x == 7 { 2nat } else { 0nat }) by {
            law_crafting_exact(s, ings, 1, x);
        }
    } else {
        assert(ings[0].item_id == 7);
        assert(!has_ingredients(s, ings));
    }
}

/// What each recipe of the book makes and takes. In order: planks (4 of
/// item 7 from a log, item 6), a crafting table (20, from 4 planks), 4 sticks
/// (21, from 2 planks), a wooden pickaxe (22, from 3 planks and 3 sticks),
/// 4 torches (24, from a coal, 23, and a stick), the Dimensional Rift Engine
/// (200, from 6 iron ingots, 100, 2 gold ingots, 101, and a diamond, 102),
/// 2 each of the moon, mars and venus crystals (220, 221, 222, each from a
/// rift crystal, 201, a void shard, 202, and moon stone 22, iron ore 19 or
/// gold ore 18), 4 rift crystals (from 4 iron, 2 gold and a diamond), 2 void
/// shards (from a diamond and 4 of item 17), and 4 each of the moon, mars and
/// venus portal frames (210, 211, 212, each from that crystal and 8 iron
/// ingots, gold ore or iron ore).
pub proof fn law_recipe_book()
    ensures
        standard_recipes().len() == 14,
        forall|i: int| 0 <= i < 14 ==> (#[trigger] standard_recipes()[i]).id == i,
        standard_recipes()[0].result == (RecipeResult { item_id: 7, count: 4 }),
        forall|x: ItemId| #[trigger] takes(standard_recipes()[0], x) == (if x == 6 { 1nat } else { 0nat }),
        standard_recipes()[1].result == (RecipeResult { item_id: 20, count: 1 }),
        forall|x: ItemId| #[trigger] takes(standard_recipes()[1], x) == (if x == 7 { 4nat } else { 0nat }),
        standard_recipes()[2].result == (RecipeResult { item_id: 21, count: 4 }),
        forall|x: ItemId| #[trigger] takes(standard_recipes()[2], x) == (if x == 7 { 2nat } else { 0nat }),
        standard_recipes()[3].result == (RecipeResult { item_id: 22, count: 1 }),
        forall|x: ItemId| #[trigger] takes(standard_recipes()[3], x) == (if x == 7 || x == 21 { 3nat } else { 0nat }),
        standard_recipes()[4].result == (RecipeResult { item_id: 24, count: 4 }),
        forall|x: ItemId| #[trigger] takes(standard_recipes()[4], x) == (if x == 23 || x == 21 { 1nat } else { 0nat }),
        standard_recipes()[5].result == (RecipeResult { item_id: 200, count: 1 }),
        forall|x: ItemId| #[trigger] takes(standard_recipes()[5], x) == (if x == 100 { 6nat } else if x == 101 { 2nat } else if x == 102 { 1nat } else { 0nat }),
        standard_recipes()[6].result == (RecipeResult { item_id: 220, count: 2 }),
        forall|x: ItemId| #[trigger] takes(standard_recipes()[6], x) == (if x == 201 || x == 22 || x == 202 { 1nat } else { 0nat }),
        standard_recipes()[7].result == (RecipeResult { item_id: 221, count: 2 }),
        forall|x: ItemId| #[trigger] takes(standard_recipes()[7], x) == (if x == 201 || x == 19 || x == 202 { 1nat } else { 0nat }),
        standard_recipes()[8].result == (RecipeResult { item_id: 222, count: 2 }),
        forall|x: ItemId| #[trigger] takes(standard_recipes()[8], x) == (if x == 201 || x == 18 || x == 202 { 1nat } else { 0nat }),
        standard_recipes()[9].result == (RecipeResult { item_id: 201, count: 4 }),
        forall|x: ItemId| #[trigger] takes(standard_recipes()[9], x) == (if x == 100 { 4nat } else if x == 101 { 2nat } else if x == 102 { 1nat } else { 0nat }),
        standard_recipes()[10].result == (RecipeResult { item_id: 202, count: 2 }),
        forall|x: ItemId| #[trigger] takes(standard_recipes()[10], x) == (if x == 102 { 1nat } else if x == 17 { 4nat } else { 0nat }),
        standard_recipes()[11].result == (RecipeResult { item_id: 210, count: 4 }),
        forall|x: ItemId| #[trigger] takes(standard_recipes()[11], x) == (if x == 220 { 1nat } else if x == 100 { 8nat } else { 0nat }),
        standard_recipes()[12].result == (RecipeResult { item_id: 211, count: 4 }),
        forall|x: ItemId| #[trigger] takes(standard_recipes()[12], x) == (if x == 221 { 1nat } else if x == 18 { 8nat } else { 0nat }),
        standard_recipes()[13].result == (RecipeResult { item_id: 212, count: 4 }),
        forall|x: ItemId| #[trigger] takes(standard_recipes()[13], x) == (if x == 222 { 1nat } else if x == 19 { 8nat } else { 0nat }),
{
    reveal_with_fuel(needed, 10);
    assert forall|i: int| 0 <= i < 14 implies (#[trigger] standard_recipes()[i]).id == i by {
    }
}

/// How many slots hold a stack of item `id`.
spec fn holders(s: Seq<Option<crate::item::ItemStack>>, id: ItemId) -> nat
    decreases s.len(),
{
    if s.len() == 0 {
        0
    } else {
        holders(s.drop_last(), id) + (if holds_id(s.last(), id) { 1nat } else { 0 })
    }
}

proof fn lemma_holders_bounds(s: Seq<Option<crate::item::ItemStack>>, id: ItemId)
    ensures
        holders(s, id) <= s.len(),
        holders(s, id) == 0 ==> total(s, id) == 0,
    decreases s.len(),
{
    if s.len() > 0 {
        lemma_holders_bounds(s.drop_last(), id);
    }
}

proof fn lemma_holders_update(s: Seq<Option<crate::item::ItemStack>>, i: int, o: Option<crate::item::ItemStack>, id: ItemId)
    requires
        0 <= i < s.len(),
        holds_id(s[i], id),
        !holds_id(o, id),
    ensures
        holders(s.update(i, o), id) + 1 == holders(s, id),
    decreases s.len(),
{
    let t = s.update(i, o);
    if i == s.len() - 1 {
        assert(t.drop_last() =~= s.drop_last());
    } else {
        assert(t.drop_last() =~= s.drop_last().update(i, o));
        lemma_holders_update(s.drop_last(), i, o, id);
    }
}

proof fn lemma_no_first_no_total(s: Seq<Option<crate::item::ItemStack>>, id: ItemId, i: int)
    requires
        0 <= i <= s.len(),
        first_from(s, id, i) == -1,
    ensures
        forall|j: int| i <= j < s.len() ==> !holds_id(#[trigger] s[j], id),
    decreases s.len() - i,
{
    if i < s.len() {
        lemma_no_first_no_total(s, id, i + 1);
    }
}

proof fn lemma_no_holder_total(s: Seq<Option<crate::item::ItemStack>>, id: ItemId)
    requires
        forall|j: int| 0 <= j < s.len() ==> !holds_id(#[trigger] s[j], id),
    ensures
        total(s, id) == 0,
    decreases s.len(),
{
    if s.len() > 0 {
        assert(!holds_id(s[s.len() - 1], id));
        lemma_no_holder_total(s.drop_last(), id);
    }
}

/// With enough steps for every slot that holds the item, taking `rem` of
/// item `id` takes all that is asked for, or every one there is.
proof fn lemma_consume_steps_exact(s: Seq<Option<crate::item::ItemStack>>, id: ItemId, rem: u8, fuel: nat)
    requires
        fuel >= holders(s, id),
    ensures
        ({
            let taken: nat = if rem <= total(s, id) { rem as nat } else { total(s, id) };
            &&& total(consume_steps(s, id, rem, fuel).0, id) + taken == total(s, id)
            &&& consume_steps(s, id, rem, fuel).1 + taken == rem
        }),
    decreases fuel,
{
    if fuel == 0 || rem == 0 {
        if rem != 0 {
            lemma_holders_bounds(s, id);
        }
    } else {
        let i = first_from(s, id, 0);
        lemma_first_from_holds(s, id, 0);
        if i < 0 {
            lemma_no_first_no_total(s, id, 0);
            lemma_no_holder_total(s, id);
            lemma_holders_zero(s, id);
            lemma_consume_steps_exact(s, id, rem, (fuel - 1) as nat);
        } else {
            let c: u8 = match s[i] {
                Some(st) => st.count,
                None => 0u8,
            };
            let r: u8 = if rem <= c { rem } else { c };
            let o = spec_slot_remove(s[i], r).0;
            let t = s.update(i, o);
            lemma_total_update(s, i, o, id);
            if r == c {
                lemma_holders_update(s, i, o, id);
                lemma_consume_steps_exact(t, id, (rem - r) as u8, (fuel - 1) as nat);
            } else {
                assert(consume_steps(t, id, (rem - r) as u8, (fuel - 1) as nat) == (t, 0u8));
            }
        }
    }
}

proof fn lemma_holders_zero(s: Seq<Option<crate::item::ItemStack>>, id: ItemId)
    requires
        forall|j: int| 0 <= j < s.len() ==> !holds_id(#[trigger] s[j], id),
    ensures
        holders(s, id) == 0,
    decreases s.len(),
{
    if s.len() > 0 {
        assert(!holds_id(s[s.len() - 1], id));
        lemma_holders_zero(s.drop_last(), id);
    }
}

/// Crafting takes exactly what the recipe asks for: when the inventory holds,
/// for every item, at least as many as all the recipe's entries for it ask for
/// together, taking the first `k` entries lowers each item's total by what
/// those entries ask for.
pub proof fn law_crafting_exact(s: Seq<Option<crate::item::ItemStack>>, ings: Seq<Ingredient>, k: int, id: ItemId)
    requires
        0 <= k <= ings.len(),
        forall|x: ItemId| #[trigger] total(s, x) >= needed(ings, ings.len() as int, x),
    ensures
        total(consume_all(s, ings, k), id) + needed(ings, k, id) == total(s, id),
    decreases k,
{
    if k > 0 {
        law_crafting_exact(s, ings, k - 1, id);
        let t = consume_all(s, ings, k - 1);
        let g = ings[k - 1];
        law_crafting_only_consumes(s, ings, k - 1, id);
        if g.item_id == id {
            lemma_needed_monotone(ings, k, ings.len() as int, id);
            assert(total(s, id) >= needed(ings, ings.len() as int, id));
            lemma_holders_bounds(t, id);
            lemma_consume_steps_exact(t, id, g.count, t.len());
        } else {
            lemma_consume_steps_totals(t, g.item_id, g.count, t.len(), id);
        }
    }
}

proof fn lemma_needed_monotone(ings: Seq<Ingredient>, j: int, k: int, id: ItemId)
    requires
        j <= k,
    ensures
        needed(ings, j, id) <= needed(ings, k, id),
    decreases k - j,
{
    if j < k {
        lemma_needed_monotone(ings, j, k - 1, id);
    }
}

/// Crafting only ever takes items out of the inventory: no item's total
/// grows, and items that are not ingredients stay as they were.
pub proof fn law_crafting_only_consumes(s: Seq<Option<crate::item::ItemStack>>, ings: Seq<Ingredient>, k: int, id: ItemId)
    requires
        k <= ings.len(),
    ensures
        total(consume_all(s, ings, k), id) <= total(s, id),
        (forall|i: int| 0 <= i < ings.len() ==> (#[trigger] ings[i]).item_id != id)
            ==> total(consume_all(s, ings, k), id) == total(s, id),
        consume_all(s, ings, k).len() == s.len(),
    decreases k,
{
    if k > 0 {
        law_crafting_only_consumes(s, ings, k - 1, id);
        let t = consume_all(s, ings, k - 1);
        let g = ings[k - 1];
        lemma_consume_steps_totals(t, g.item_id, g.count, t.len(), id);
    }
}

} // verus!
