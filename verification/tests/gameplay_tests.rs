use voxelnaut::crafting::{CraftingGrid, CraftingManager, Ingredient, Recipe, RecipeShape};
use voxelnaut::dimensional::{get_dimension_from_frame, is_portal_frame_block, Portal, PortalManager, PortalState};
use voxelnaut::inventory::{Inventory, InventorySlot};
use voxelnaut::item::{max_stack, ItemStack, RIFT_ENGINE_ITEM_ID};
use voxelnaut::math::{BlockPos, ChunkPos};
use voxelnaut::survival::{EffectTick, StatusEffects};
use voxelnaut::world_types::DimensionId;

fn total(inv: &Inventory, id: u16) -> u32 {
    inv.count_item(id)
}

#[test]
fn item_stack_limits() {
    assert_eq!(max_stack(RIFT_ENGINE_ITEM_ID), 1);
    assert_eq!(max_stack(7), 64);
    let mut s = ItemStack::new(7, 60);
    assert_eq!(s.add(10), 6);
    assert_eq!(s.count, 64);
    assert_eq!(s.remove(100), 64);
    assert!(s.is_empty());
    let mut r = ItemStack::new(RIFT_ENGINE_ITEM_ID, 0);
    assert_eq!(r.add(3), 2);
    assert_eq!(r.max_count(), 1);
    assert!(ItemStack::empty().is_empty());
}

#[test]
fn inventory_slot_operations() {
    let mut slot = InventorySlot::new();
    assert!(slot.is_empty());
    assert_eq!(slot.add(5, 70), 6);
    assert_eq!(slot.count(), 64);
    assert_eq!(slot.item_id(), Some(5));
    assert_eq!(slot.remove(4), 4);
    assert_eq!(slot.get_stack(), Some(ItemStack::new(5, 60)));
    // a different item does not go onto the stack
    assert_eq!(slot.add(6, 1), 1);
    slot.clear();
    assert!(slot.is_empty());
    let filled = InventorySlot::new().with_item(9, 3);
    assert_eq!(filled.count(), 3);
}

#[test]
fn add_item_stacks_then_fills() {
    let mut inv = Inventory::new(4);
    assert_eq!(inv.size(), 4);
    assert_eq!(inv.add_item(7, 50), (7, 0));
    assert_eq!(inv.add_item(7, 20), (7, 0));
    assert_eq!(inv.get_slot(0).unwrap().count(), 64);
    assert_eq!(inv.get_slot(1).unwrap().count(), 6);
    assert_eq!(total(&inv, 7), 70);
    // more than fits: the leftover comes back
    assert_eq!(inv.add_item(8, 255), (8, 127));
    assert_eq!(total(&inv, 8), 128);
    assert_eq!(inv.find_item(8), Some(2));
    assert!(inv.contains(8));
    assert!(inv.contains_count(7, 70));
    assert!(!inv.contains_count(7, 71));
    assert_eq!(inv.find_item(99), None);
}

#[test]
fn add_then_remove_conserves_items() {
    let mut inv = Inventory::new(3);
    inv.add_item(4, 30);
    let before = total(&inv, 4);
    let removed = inv.remove_item(0, 12);
    assert_eq!(removed, 12);
    assert_eq!(total(&inv, 4) + removed as u32, before);
    assert_eq!(inv.remove_item(17, 1), 0);
}

#[test]
fn swap_and_move_keep_totals() {
    let mut inv = Inventory::new(3);
    inv.add_item(1, 10);
    inv.add_item(2, 5);
    inv.swap(0, 1);
    assert_eq!(inv.get_slot(0).unwrap().item_id(), Some(2));
    assert_eq!(inv.get_slot(1).unwrap().item_id(), Some(1));
    inv.move_to(0, 2);
    assert!(inv.get_slot(0).unwrap().is_empty());
    assert_eq!(inv.get_slot(2).unwrap().item_id(), Some(2));
    assert_eq!((total(&inv, 1), total(&inv, 2)), (10, 5));
    inv.clear();
    assert_eq!((total(&inv, 1), total(&inv, 2)), (0, 0));
}

#[test]
fn hotbar_selection() {
    let mut inv = Inventory::new(36);
    assert_eq!(inv.hotbar_start(), 27);
    assert_eq!(inv.selected_slot(), 27);
    inv.set_selected_slot(30);
    assert_eq!(inv.selected_slot(), 30);
    inv.set_selected_slot(3);
    assert_eq!(inv.selected_slot(), 30);
    inv.get_slot_mut(30).unwrap().add(12, 2);
    assert_eq!(inv.selected_item().unwrap().count(), 2);
    assert_eq!(inv.remove_selected(5), 2);
    assert_eq!(inv.iter().len(), 36);
    assert_eq!(inv.iter_mut().len(), 36);
}

#[test]
fn recipe_book_and_crafting() {
    let manager = CraftingManager::new();
    assert_eq!(manager.recipes().len(), 14);
    assert_eq!(manager.recipes()[0].name, "Wooden Planks");
    let mut inv = Inventory::new(9);
    inv.add_item(6, 2);
    assert_eq!(manager.craft(0, &mut inv), Some((7, 4)));
    assert_eq!(total(&inv, 6), 1);
    // unknown recipe and missing ingredients change nothing
    assert_eq!(manager.craft(99, &mut inv), None);
    assert_eq!(manager.craft(4, &mut inv), None);
    assert_eq!(total(&inv, 6), 1);
}

#[test]
fn rift_engine_recipe() {
    let manager = CraftingManager::new();
    let mut inv = Inventory::new(9);
    inv.add_item(100, 6);
    inv.add_item(101, 2);
    inv.add_item(102, 1);
    let craftable: Vec<u32> = manager.find_craftable(&inv).iter().map(|r| r.id).collect();
    assert!(craftable.contains(&5));
    assert_eq!(manager.craft(5, &mut inv), Some((RIFT_ENGINE_ITEM_ID, 1)));
    assert_eq!((total(&inv, 100), total(&inv, 101), total(&inv, 102)), (0, 0, 0));
}

#[test]
fn crafting_grid_cells() {
    let mut g = CraftingGrid::new(3, 2);
    assert_eq!((g.width(), g.height()), (3, 2));
    g.set_slot(2, 1, Some(7));
    assert_eq!(g.get_slot(2, 1), Some(7));
    assert_eq!(g.get_slot(0, 0), None);
    g.set_slot(5, 5, Some(1));
    assert_eq!(g.get_slot(5, 5), None);
    g.clear();
    assert_eq!(g.get_slot(2, 1), None);
}

#[test]
fn recipe_constructors() {
    let r = Recipe::shapeless("Mix", vec![Ingredient { item_id: 1, count: 2 }], (3, 4));
    assert_eq!(r.shape, RecipeShape::Shapeless);
    assert_eq!((r.result.item_id, r.result.count), (3, 4));
    let s = Recipe::shaped("Box", 2, 2, vec![], (5, 1));
    assert_eq!(s.shape, RecipeShape::Shaped { width: 2, height: 2 });
}

fn portal(pos: BlockPos, dim: u16, state: PortalState) -> Portal {
    Portal { position: pos, target_dimension: DimensionId(dim), state, frame_blocks: vec![pos] }
}

#[test]
fn portals_register_and_teleport() {
    let mut pm = PortalManager::new();
    assert!(pm.get_portal(ChunkPos::new(0, 0)).is_none());
    pm.register_portal(portal(BlockPos::new(40, 64, -3), 1, PortalState::Active));
    pm.register_portal(portal(BlockPos::new(1000, 64, 1000), 2, PortalState::Ready));
    let p = pm.get_portal(ChunkPos::new(1, -1)).unwrap();
    assert_eq!(p.target_dimension, DimensionId(1));
    assert_eq!(pm.get_active_portals().len(), 1);
    assert_eq!(pm.teleport(p), Some(DimensionId(1)));
    let ready = pm.get_portal(ChunkPos::new(31, 31)).unwrap();
    assert_eq!(pm.teleport(ready), None);
    let mut inv = Inventory::new(9);
    assert!(!pm.can_use_portal(p, &inv));
    inv.add_item(220, 1);
    assert!(pm.can_use_portal(p, &inv));
    assert!(!pm.can_use_portal(ready, &inv));
}

#[test]
fn portal_frames() {
    assert!(is_portal_frame_block(211));
    assert!(!is_portal_frame_block(213));
    assert_eq!(get_dimension_from_frame(210), Some(DimensionId(1)));
    assert_eq!(get_dimension_from_frame(212), Some(DimensionId(3)));
    assert_eq!(get_dimension_from_frame(5), None);
}

use voxelnaut::dimensional::{handle_rift_engine_use, DimensionalTravelManager, RiftEngineState, TravelResult};

#[test]
fn rift_engine_needs_charge_cooldown_and_crystal() {
    let mut e = RiftEngineState::new();
    assert_eq!(e.charge, 1000);
    let mut inv = Inventory::new(9);
    assert!(!e.use_engine(DimensionId(1), &inv, true));
    inv.add_item(220, 1);
    assert!(!e.use_engine(DimensionId(1), &inv, false));
    assert!(e.use_engine(DimensionId(1), &inv, true));
    assert_eq!((e.charge, e.selected_dimension), (999, DimensionId(1)));
    assert!(e.use_engine(DimensionId(0), &inv, true));
    e.charge = 0;
    assert!(!e.can_use(true));
    assert!(!e.use_engine(DimensionId(0), &inv, true));
}

#[test]
fn travel_records_history() {
    let mut t = DimensionalTravelManager::new();
    assert_eq!(t.get_history(), &[DimensionId(0)]);
    let mut inv = Inventory::new(9);
    inv.add_item(221, 1);
    assert!(!t.travel_to(DimensionId(0), &inv, true));
    assert!(!t.travel_to(DimensionId(1), &inv, true));
    assert!(t.travel_to(DimensionId(2), &inv, true));
    assert_eq!(t.current_dimension, DimensionId(2));
    assert_eq!(t.rift_engine.charge, 999);
    assert!(!t.return_to_overworld(false));
    assert!(t.return_to_overworld(true));
    assert_eq!(t.get_history(), &[DimensionId(0), DimensionId(2), DimensionId(0)]);
    assert_eq!(*t.get_history().last().unwrap(), t.current_dimension);
    assert!(!t.return_to_overworld(true));
}

#[test]
fn travel_destinations_and_cycle() {
    let mut t = DimensionalTravelManager::new();
    let mut inv = Inventory::new(9);
    inv.add_item(222, 1);
    inv.add_item(232, 1);
    assert_eq!(t.get_available_destinations(&inv, true), vec![DimensionId(3), DimensionId(13)]);
    assert!(t.get_available_destinations(&inv, false).is_empty());
    assert!(t.can_access(DimensionId(0), &inv, false));
    assert!(!t.can_access(DimensionId(5), &inv, true));
    t.cycle_dimension();
    assert_eq!(t.rift_engine.selected_dimension, DimensionId(1));
    t.current_dimension = DimensionId(7);
    t.cycle_dimension();
    assert_eq!(t.rift_engine.selected_dimension, DimensionId(0));
    t.current_dimension = DimensionId(9);
    t.cycle_dimension();
    assert_eq!(t.rift_engine.selected_dimension, DimensionId(0));
}

#[test]
fn travel_via_portal_and_engine_use() {
    let mut t = DimensionalTravelManager::default();
    let mut inv = Inventory::new(9);
    let p = portal(BlockPos::new(0, 64, 0), 1, PortalState::Active);
    assert!(!t.travel_via_portal(&p, &inv));
    inv.add_item(220, 1);
    assert!(t.travel_via_portal(&p, &inv));
    assert_eq!(t.current_dimension, DimensionId(1));
    assert_eq!(t.rift_engine.charge, 1000);
    match handle_rift_engine_use(DimensionId(1), &mut inv, &mut t, true) {
        TravelResult::Failed { reason } => assert_eq!(reason, "Cannot travel - check charge and crystal requirements"),
        _ => panic!("travel to the current dimension must fail"),
    }
    match handle_rift_engine_use(DimensionId(0), &mut inv, &mut t, true) {
        TravelResult::Success { from, to } => assert_eq!((from, to), (DimensionId(1), DimensionId(0))),
        _ => panic!("travel home must succeed"),
    }
}

#[test]
fn crafting_table_needs_all_four_planks() {
    let manager = CraftingManager::new();
    let mut inv = Inventory::new(9);
    inv.add_item(7, 5);
    assert_eq!(manager.craft(1, &mut inv), Some((20, 1)));
    assert_eq!(inv.count_item(7), 1);
    // the four entries ask for four planks together; one is not enough
    assert_eq!(manager.craft(1, &mut inv), None);
    assert_eq!(inv.count_item(7), 1);
}

#[test]
fn rift_engine_recipe_counts_repeated_ingredients() {
    let manager = CraftingManager::new();
    let mut inv = Inventory::new(36);
    inv.add_item(100, 1);
    inv.add_item(101, 1);
    inv.add_item(102, 1);
    assert_eq!(manager.craft(5, &mut inv), None);
    assert!(manager.find_craftable(&inv).iter().all(|r| r.id != 5));
    inv.add_item(100, 5);
    inv.add_item(101, 1);
    assert!(manager.find_craftable(&inv).iter().any(|r| r.id == 5));
    assert_eq!(manager.craft(5, &mut inv), Some((200, 1)));
    assert_eq!((inv.count_item(100), inv.count_item(101), inv.count_item(102)), (0, 0, 0));
}

#[test]
fn status_effects_tick_down() {
    let mut e = StatusEffects::default();
    e.apply_poison(11);
    e.apply_poison(5);
    e.apply_regeneration(3);
    assert_eq!(e, StatusEffects { poison_ticks: 11, wither_ticks: 0, regeneration_ticks: 3 });
    let t = e.tick();
    assert_eq!(t, EffectTick { heal: false, poison_damage: true, wither_damage: false });
    assert_eq!((e.poison_ticks, e.regeneration_ticks), (10, 2));
    let mut hurts = 0;
    let mut heals = 0;
    for _ in 0..20 {
        let t = e.tick();
        hurts += t.poison_damage as u32;
        heals += t.heal as u32;
    }
    assert_eq!((hurts, heals), (1, 1));
    assert_eq!(e, StatusEffects::new());
    e.apply_wither(25);
    let mut withers = 0;
    for _ in 0..30 {
        withers += e.tick().wither_damage as u32;
    }
    assert_eq!(withers, 3);
}
