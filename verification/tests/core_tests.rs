use voxelnaut::block::{init_blocks, BlockCategory, BlockDef, BlockRegistry, ToolType};
use voxelnaut::block::face_shows_towards;
use voxelnaut::block::{BlockFlag, BLOCK_AIR, MAX_BLOCKS};
use voxelnaut::config::{Difficulty, GameplaySettings, KeyBindings, NetworkSettings, ShadowQuality, TextureQuality};
use voxelnaut::entity::{EntityId, EntityManager, MobType, INVALID_ENTITY_ID};
use voxelnaut::events::{
    BlockBrokenEvent, BlockPlacedEvent, ChatMessageEvent, ChunkLoadedEvent, DamageSource, Event, EventBus,
    PlayerDeathEvent, PlayerJoinedEvent, PlayerLeftEvent,
};
use voxelnaut::item::{ItemCategory, ItemDef, ItemRegistry, ToolType as ItemToolType};
use voxelnaut::logging::{LogEntry, LogLevel};
use voxelnaut::math::{BlockPos, ChunkPos, Direction};
use voxelnaut::world_types::{Biome, DimensionId, WorldId, WorldSeed, DIM_JUPITER, DIM_MOON, DIM_OVERWORLD};

#[test]
fn block_pos_arithmetic() {
    let a = BlockPos::new(1, 2, 3);
    let b = BlockPos::new(4, -5, 6);
    assert_eq!(a.dot(&b), 4 - 10 + 18);
    let c = a.cross(&b);
    assert_eq!(c, BlockPos::new(2 * 6 - 3 * -5, 3 * 4 - 1 * 6, 1 * -5 - 2 * 4));
    assert_eq!(a.min(&b), BlockPos::new(1, -5, 3));
    assert_eq!(a.max(&b), BlockPos::new(4, 2, 6));
    assert_eq!(b.abs(), BlockPos::new(4, 5, 6));
    assert_eq!(BlockPos::from_array([7, 8, 9]).to_array(), [7, 8, 9]);
}

#[test]
fn chunk_of_block_rounds_down() {
    let p = ChunkPos::from_block(&BlockPos::new(31, 0, 32));
    assert_eq!((p.x, p.z), (0, 1));
    let n = ChunkPos::from_block(&BlockPos::new(-1, 0, -33));
    assert_eq!((n.x, n.z), (-1, -2));
    let b = ChunkPos::new(2, -3).to_block(10);
    assert_eq!(b, BlockPos::new(64, 10, -96));
    assert_eq!(ChunkPos::new(5, 6).to_array(), [5, 6]);
}

#[test]
fn chunk_contains_block_law_on_values() {
    // every block lies in the chunk that from_block names
    for x in [-100, -33, -32, -31, -1, 0, 1, 31, 32, 1000] {
        let c = ChunkPos::from_block(&BlockPos::new(x, 0, x));
        assert!(32 * c.x <= x && x < 32 * c.x + 32);
    }
}

#[test]
fn directions_and_opposites() {
    let all = Direction::all();
    assert_eq!(all.len(), 6);
    for d in all.iter() {
        assert_eq!(d.opposite().opposite(), *d);
        let o = d.offset();
        let q = d.opposite().offset();
        assert_eq!(BlockPos::new(o.x + q.x, o.y + q.y, o.z + q.z), BlockPos::new(0, 0, 0));
    }
}

#[test]
fn log_level_parsing_ignores_case() {
    assert_eq!(LogLevel::from_str("trace"), LogLevel::Trace);
    assert_eq!(LogLevel::from_str("DEBUG"), LogLevel::Debug);
    assert_eq!(LogLevel::from_str("Warn"), LogLevel::Warn);
    assert_eq!(LogLevel::from_str("eRrOr"), LogLevel::Error);
    assert_eq!(LogLevel::from_str("info"), LogLevel::Info);
    assert_eq!(LogLevel::from_str("verbose"), LogLevel::Info);
    assert_eq!(LogLevel::from_str(""), LogLevel::Info);
    assert_eq!(LogLevel::from_str("trace "), LogLevel::Info);
    assert!(LogLevel::Trace < LogLevel::Error);
    assert_eq!(LogLevel::Warn.as_str(), "WARN");
}

#[test]
fn log_entry_fields() {
    let e = LogEntry::new(LogLevel::Info, "world", "loaded".to_string());
    assert_eq!(e.level, LogLevel::Info);
    assert_eq!(e.target, "world");
    assert_eq!(e.message, "loaded");
    // YYYY-MM-DD HH:MM:SS.mmm
    assert_eq!(e.timestamp.len(), 23);
    let s = LogEntry::stamped("2024-01-01 00:00:00.000".to_string(), LogLevel::Error, "net", "x".to_string());
    assert_eq!(s.timestamp, "2024-01-01 00:00:00.000");
}

#[test]
fn settings_defaults() {
    assert_eq!(ShadowQuality::default(), ShadowQuality::Medium);
    assert_eq!(TextureQuality::default(), TextureQuality::High);
    assert_eq!(Difficulty::default(), Difficulty::Normal);
    let g = GameplaySettings::default();
    assert_eq!(g.difficulty, Difficulty::Normal);
    assert_eq!(g.auto_save_interval, 300);
    assert!(g.show_hotbar && g.auto_jump && !g.sprint_by_default && g.dynamic_fov);
    let n = NetworkSettings::default();
    assert_eq!(n.max_peers, 8);
    assert_eq!(n.stun_server, "stun.l.google.com:19302");
    assert!(!n.turn_enabled && n.turn_server.is_none());
    let k = KeyBindings::default();
    assert_eq!(k.forward, "KeyW");
    assert_eq!(k.jump, "Space");
    assert_eq!(k.screenshot, "F2");
}

#[test]
fn block_flags_are_single_bits() {
    assert_eq!(BLOCK_AIR, 0);
    assert_eq!(MAX_BLOCKS, 512);
    assert_eq!(BlockFlag::Empty.bits(), 0);
    assert_eq!(BlockFlag::Solid.bits(), 1);
    assert_eq!(BlockFlag::ToolRequired.bits(), 64);
    assert_eq!(BlockFlag::Transparent.bits() & BlockFlag::Liquid.bits(), 0);
}

#[test]
fn events_carry_their_fields_and_names() {
    let j = PlayerJoinedEvent::new(7, "alice".to_string());
    assert_eq!((j.entity_id, j.username.as_str()), (7, "alice"));
    assert_eq!(j.event_name(), "player_joined");
    assert_eq!(PlayerLeftEvent::new(7, "alice".to_string()).event_name(), "player_left");
    let b = BlockBrokenEvent::new(BlockPos::new(1, 2, 3), 4, 5);
    assert_eq!((b.position, b.block_id, b.player_id), (BlockPos::new(1, 2, 3), 4, 5));
    assert_eq!(b.event_name(), "block_broken");
    assert_eq!(BlockPlacedEvent::new(BlockPos::new(0, 0, 0), 1, 1).event_name(), "block_placed");
    let d = PlayerDeathEvent::new(3, DamageSource::Fall);
    assert_eq!(d.cause, DamageSource::Fall);
    assert_eq!(d.event_name(), "player_death");
    let c = ChunkLoadedEvent::new(-2, 9);
    assert_eq!((c.chunk_x, c.chunk_z), (-2, 9));
    assert_eq!(c.event_name(), "chunk_loaded");
    let m = ChatMessageEvent::new(1, "bob".to_string(), "hi".to_string());
    assert_eq!(m.message, "hi");
    assert_eq!(m.event_name(), "chat_message");
}

#[test]
fn mob_type_names() {
    assert_eq!(MobType::Passive.as_str(), "Passive");
    assert_eq!(MobType::Hostile.as_str(), "Hostile");
}

#[test]
fn biomes_and_dimensions() {
    assert_eq!(Biome::all().len(), 35);
    assert_eq!(Biome::all()[0], Biome::Plains);
    assert_eq!(Biome::overworld_biomes().len(), 14);
    assert_eq!(Biome::overworld_biomes()[13], Biome::Badlands);
    assert!(Biome::LunarPlains.is_celestial());
    assert!(!Biome::Forest.is_celestial());
    assert_eq!(WorldSeed::default().0, 12345);
    assert_eq!(WorldId::default().0, "default");
    let moon = DimensionId(DIM_MOON);
    assert_eq!(moon.name(), "The Moon");
    assert_eq!(moon.required_crystal_item_id(), Some(220));
    assert_eq!(DimensionId(13).required_crystal_item_id(), Some(232));
    assert_eq!(DimensionId(DIM_OVERWORLD).required_crystal_item_id(), None);
    assert_eq!(DimensionId(DIM_JUPITER).spawn_y(), 128);
    assert_eq!(moon.spawn_y(), 64);
    assert_eq!(DimensionId(4).seed_offset(), 4000);
    assert_eq!(DimensionId(99).name(), "Unknown");
}

#[test]
fn dimension_crystal_table() {
    // item 219 + id for dimensions 1 to 13
    for id in 1u16..=13 {
        assert_eq!(DimensionId(id).required_crystal_item_id(), Some(219 + id));
    }
    assert_eq!(DimensionId(14).required_crystal_item_id(), None);
}

#[test]
fn item_registry_holds_the_game_items() {
    let registry: ItemRegistry<f32> = ItemRegistry::new();
    let coal = registry.get(16).unwrap();
    assert_eq!(coal.name, "coal_ore");
    assert_eq!(coal.category, ItemCategory::Block);
    assert!(coal.stackable);
    assert_eq!(coal.max_stack, 64);
    let engine = registry.get(200).unwrap();
    assert_eq!(engine.name, "dimensional_rift_engine");
    assert_eq!(engine.category, ItemCategory::Equipment);
    assert!(!engine.stackable);
    assert_eq!(engine.max_stack, 1);
    assert_eq!(engine.durability, Some(1000));
    assert!(engine.damage.is_none() && engine.tool_type.is_none());
    assert!(registry.get(0).is_none());
    assert!(registry.get(50).is_none());
    assert!(registry.get(233).is_none());
    for d in 1u16..=13 {
        assert!(registry.get(219 + d).is_some());
    }
    assert_eq!(registry.get_id("frost_shard"), Some(232));
    assert_eq!(registry.get(223).unwrap().name, "mercury_crystal");
    assert_eq!(registry.get_id("void_shard"), Some(202));
    assert_eq!(registry.get_by_name("moon_crystal").map(|d| d.id), Some(220));
    assert_eq!(registry.get_id("unobtainium"), None);
    assert!(registry.get_by_name("unobtainium").is_none());
}

#[test]
fn item_registry_register_and_replace() {
    let mut registry: ItemRegistry<f32> = ItemRegistry::default();
    registry.register(ItemDef {
        id: 300,
        name: "laser_sword".to_string(),
        category: ItemCategory::Weapon,
        stackable: false,
        max_stack: 1,
        durability: Some(500),
        damage: Some(7.5),
        armor_bonus: None,
        food_points: None,
        saturation: None,
        tool_type: Some(ItemToolType::Sword),
    });
    let sword = registry.get(300).unwrap();
    assert_eq!(sword.damage, Some(7.5));
    assert_eq!(registry.get_id("laser_sword"), Some(300));
    assert!(registry.get(250).is_none());
    assert!(registry.get(301).is_none());

    let mut apple = ItemDef {
        id: 301,
        name: "laser_sword".to_string(),
        category: ItemCategory::Food,
        stackable: true,
        max_stack: 64,
        durability: None,
        damage: None,
        armor_bonus: None,
        food_points: Some(4.0),
        saturation: Some(2.4),
        tool_type: None,
    };
    registry.register(apple.clone());
    assert_eq!(registry.get_id("laser_sword"), Some(301));
    assert_eq!(registry.get_by_name("laser_sword").map(|d| d.category), Some(ItemCategory::Food));
    apple.id = 300;
    apple.name = "apple".to_string();
    registry.register(apple);
    assert_eq!(registry.get(300).map(|d| d.name.clone()), Some("apple".to_string()));
    assert_eq!(registry.get_id("apple"), Some(300));
}

#[test]
fn entity_manager_hands_out_fresh_ids() {
    let mut manager: EntityManager<String, (EntityId, MobType), u16> = EntityManager::new();
    assert_eq!(manager.next_entity_id(), 1);
    let p = manager.spawn_player(|id| format!("player{}", id));
    let m = manager.spawn_mob(|id| (id, MobType::Hostile));
    let i = manager.spawn_item(|_| 42u16);
    assert_eq!((p, m, i), (1, 2, 3));
    assert_eq!(manager.get_player(1).map(|s| s.as_str()), Some("player1"));
    assert!(manager.get_mob(1).is_none());
    assert_eq!(manager.get_mob(2), Some(&(2, MobType::Hostile)));
    assert_eq!(manager.get_item(3), Some(&42));
    manager.remove_entity(2);
    assert!(manager.get_mob(2).is_none());
    assert!(manager.mobs().is_empty());
    let again = manager.spawn_mob(|id| (id, MobType::Passive));
    assert_eq!(again, 4);
    if let Some(name) = manager.get_player_mut(1) {
        name.push_str("_renamed");
    }
    assert_eq!(manager.get_player(1).map(|s| s.as_str()), Some("player1_renamed"));
    assert!(manager.get_item_mut(9).is_none());
    assert_eq!(manager.players().len(), 1);
    assert_eq!(manager.items().len(), 1);
    assert_eq!(INVALID_ENTITY_ID, 0);
}

#[test]
fn event_bus_files_listeners_by_name() {
    let mut bus: EventBus<u32> = EventBus::default();
    assert!(bus.listeners("player_joined").is_empty());
    bus.subscribe("player_joined", 1);
    bus.subscribe("block_broken", 2);
    bus.subscribe("player_joined", 3);
    assert_eq!(bus.listeners("player_joined"), &[1, 3]);
    assert_eq!(bus.listeners("block_broken"), &[2]);
    assert!(bus.listeners("chat_message").is_empty());
    let joined = PlayerJoinedEvent::new(7, "alice".to_string());
    assert_eq!(bus.listeners(joined.event_name()), &[1, 3]);
}

#[test]
fn block_registry_ids_are_indices() {
    let mut r: BlockRegistry<f32> = BlockRegistry::new(0.0, 0.0);
    assert_eq!(r.len(), 1);
    init_blocks(&mut r, |id| (id as f32, id as f32 * 5.0));
    assert_eq!(r.len(), 20);
    for i in 0..20u16 {
        assert_eq!(r.get(i).unwrap().id, i);
    }
    let stone = r.get(1).unwrap();
    assert_eq!(stone.name, "stone");
    assert_eq!(stone.category, BlockCategory::Stone);
    assert_eq!(stone.tool_type, ToolType::Pickaxe);
    assert!(stone.is_solid());
    let water = r.get(6).unwrap();
    assert!(water.is_liquid() && water.is_transparent() && !water.is_solid());
    assert_eq!(r.get(4).unwrap().texture, [4, 4, 5, 3, 4, 4]);
    assert_eq!(r.get(19).unwrap().name, "clay");
    assert_eq!(r.get(18).unwrap().hardness, 18.0);
    assert!(r.get(20).is_none());
    let id = r.register(BlockDef::new("marble", BlockCategory::Stone, 1, 1.0, 5.0).with_drop(2, 3));
    assert_eq!(id, 20);
    assert_eq!(r.get(20).unwrap().drop_id, Some(2));
    assert_eq!(r.get_unchecked(20).drop_count, 3);
}

#[test]
fn faces_show_towards_air_and_clear_blocks() {
    assert!(face_shows_towards(0));
    assert!(face_shows_towards(6));
    assert!(face_shows_towards(10));
    assert!(!face_shows_towards(1));
    assert!(face_shows_towards(300));
}
