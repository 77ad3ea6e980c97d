use std::path::PathBuf;
use voxelnaut::biome::{BiomeDefinition, BiomeManager};
use voxelnaut::chunk::{Chunk, ChunkState, ChunkStats};
use voxelnaut::fluid::{FluidSimulation, FluidType};
use voxelnaut::generator::{
    carve_caves, carve_ravines, cave_fill, clamp_surface_height, fill_terrain, generate_block, ore_block_id, ore_placements,
    place_ore, OreType,
};
use voxelnaut::math::{BlockPos, ChunkPos, Direction, CHUNK_VOLUME};
use voxelnaut::mesh::{visible_faces, Mesh};
use voxelnaut::pathfinding::{simplify_path, PathRequest, PathResult, Pathfinder};
use voxelnaut::persistence::{ChunkSaveData, GameStats, PlayerInventoryState, StatsTracker};
use voxelnaut::dimensions::{Dimension, DimensionManager, DIMENSION_COUNT};
use voxelnaut::world_types::{Biome, DimensionId, DIM_MARS, DIM_MOON, DIM_OVERWORLD};
use voxelnaut::worldgen::{TerrainTool, WorldGenType};

#[test]
fn new_chunk_is_empty() {
    let c = Chunk::new(ChunkPos::new(3, 4));
    assert_eq!(c.blocks.len(), CHUNK_VOLUME);
    assert!(c.blocks.iter().all(|b| *b == 0));
    assert!(c.sky_light.iter().all(|l| *l == 15));
    assert_eq!(c.biome.len(), 1024);
    assert_eq!(c.state, ChunkState::Generating);
    assert_eq!(c.version, 1);
    assert!(!c.is_dirty && !c.is_generated);
}

#[test]
fn chunk_read_after_write() {
    let mut c = Chunk::new(ChunkPos::new(0, 0));
    c.set_block_local(1, 2, 3, 9);
    assert_eq!(c.get_block_local(1, 2, 3), 9);
    assert_eq!(c.blocks[2 * 1024 + 3 * 32 + 1], 9);
    assert_eq!(c.get_block_local(3, 2, 1), 0);
    assert!(c.is_dirty);
    assert_eq!(c.version, 2);
}

#[test]
fn chunk_world_positions() {
    // the chunk at (10, 20) starts at block (320, 640)
    let mut c = Chunk::new(ChunkPos::new(10, 20));
    c.set_block_world(BlockPos::new(325, 4, 641), 7);
    assert_eq!(c.get_block_local(5, 4, 1), 7);
    assert_eq!(c.get_block_world(BlockPos::new(325, 4, 641)), 7);
    // outside the chunk: air, and writes are ignored
    assert_eq!(c.get_block_world(BlockPos::new(319, 4, 641)), 0);
    assert_eq!(c.get_block_world(BlockPos::new(325, 32, 641)), 0);
    assert_eq!(c.get_block_world(BlockPos::new(i32::MIN, 0, i32::MAX)), 0);
    let v = c.version;
    c.set_block_world(BlockPos::new(325, -1, 641), 7);
    assert_eq!(c.version, v);
}

#[test]
fn chunk_marks() {
    let mut c = Chunk::new(ChunkPos::new(0, 0));
    c.mark_generated();
    assert!(c.is_generated);
    assert_eq!(c.state, ChunkState::Loaded);
    c.mark_dirty();
    assert!(c.is_dirty);
    let s = ChunkStats { loaded: 1, generated: 2, pending: 3, total_slots: 4 };
    assert_eq!(s.pending, 3);
}

#[test]
fn chunk_save_record() {
    let mut c = Chunk::new(ChunkPos::new(-2, 5));
    c.set_block_local(0, 0, 0, 3);
    let d = ChunkSaveData::from_chunk(&c);
    assert_eq!(d.chunk_pos, ChunkPos::new(-2, 5));
    assert_eq!(d.dimension, DimensionId(DIM_OVERWORLD));
    assert_eq!(d.blocks, c.blocks);
    assert!(d.modified_at > 0);
    let e = ChunkSaveData::stamped(&c, 77);
    assert_eq!(e.modified_at, 77);
    let p = PlayerInventoryState { entity_id: 1, hotbar: vec![Some((1, 2))], main: vec![], armor: vec![], offhand: None, experience: 0, level: 0 };
    assert_eq!(p.hotbar[0], Some((1, 2)));
}

#[test]
fn fluids_drain_and_stop() {
    let mut f = FluidSimulation::new();
    f.add_water(0, 64, 0, 2);
    f.add_lava(1, 64, 1, 1);
    for _ in 0..4 {
        f.simulate();
    }
    assert_eq!(f.water_sources[0].level, 2);
    f.simulate(); // tick 5: water drains
    assert_eq!(f.water_sources[0].level, 1);
    for _ in 0..5 {
        f.simulate();
    }
    assert_eq!(f.water_sources[0].level, 0);
    assert!(!f.water_sources[0].flowing);
    for _ in 0..10 {
        f.simulate();
    }
    // tick 20: lava drains to zero and stops
    assert_eq!(f.lava_sources[0].level, 0);
    assert!(!f.lava_sources[0].flowing);
    while f.tick_counter < 100 {
        f.simulate();
    }
    // tick 100: stopped sources are dropped
    assert!(f.water_sources.is_empty());
    assert!(f.lava_sources.is_empty());
    assert_ne!(FluidType::Water, FluidType::Lava);
}

#[test]
fn water_levels_never_rise() {
    let mut f = FluidSimulation::new();
    f.add_water(0, 0, 0, 200);
    let mut last = 200;
    for _ in 0..60 {
        f.simulate();
        assert!(f.water_sources[0].level <= last);
        last = f.water_sources[0].level;
    }
}

fn open_floor(p: BlockPos) -> bool {
    p.y == 0 && !(p.x == 2 && p.z <= 1)
}

#[test]
fn path_around_a_wall() {
    let finder = Pathfinder::new(open_floor);
    let req = PathRequest { start: BlockPos::new(0, 0, 0), end: BlockPos::new(4, 0, 0), max_distance: 16 };
    let r = finder.find_path(&req);
    assert!(r.reached);
    assert_eq!(r.waypoints[0], req.start);
    assert_eq!(*r.waypoints.last().unwrap(), req.end);
    for w in r.waypoints.windows(2) {
        let d = (w[0].x - w[1].x).abs() + (w[0].y - w[1].y).abs() + (w[0].z - w[1].z).abs();
        assert_eq!(d, 1);
    }
    assert!(r.waypoints.iter().all(|p| open_floor(*p)));
}

#[test]
fn path_to_blocked_end_is_empty() {
    let finder = Pathfinder::new(open_floor);
    let req = PathRequest { start: BlockPos::new(0, 0, 0), end: BlockPos::new(2, 0, 0), max_distance: 16 };
    let r = finder.find_path(&req);
    assert!(!r.reached);
    assert!(r.waypoints.is_empty());
}

#[test]
fn path_results_and_simplify() {
    assert!(PathResult::empty().waypoints.is_empty());
    assert!(PathResult::success(vec![BlockPos::new(0, 0, 0)]).reached);
    assert!(!PathResult::partial(vec![]).reached);
    let p = [BlockPos::new(0, 0, 0), BlockPos::new(0, 0, 0), BlockPos::new(1, 0, 0), BlockPos::new(1, 0, 0)];
    assert_eq!(
        simplify_path(&p),
        vec![BlockPos::new(0, 0, 0), BlockPos::new(0, 0, 0), BlockPos::new(1, 0, 0), BlockPos::new(1, 0, 0)]
    );
    let line = [BlockPos::new(0, 0, 0), BlockPos::new(1, 0, 0), BlockPos::new(2, 0, 0)];
    assert_eq!(simplify_path(&line), vec![BlockPos::new(0, 0, 0), BlockPos::new(2, 0, 0)]);
    let corner = [BlockPos::new(0, 0, 0), BlockPos::new(1, 0, 0), BlockPos::new(2, 0, 0), BlockPos::new(2, 0, 1), BlockPos::new(2, 0, 2)];
    assert_eq!(simplify_path(&corner), vec![BlockPos::new(0, 0, 0), BlockPos::new(2, 0, 0), BlockPos::new(2, 0, 2)]);
    let two = [BlockPos::new(0, 0, 0), BlockPos::new(0, 0, 0)];
    assert_eq!(simplify_path(&two), two.to_vec());
    assert!(simplify_path(&[]).is_empty());
}

#[test]
fn terrain_tool_keeps_its_settings() {
    let t = TerrainTool::new(42, PathBuf::from("out"));
    assert_eq!(t.seed(), 42);
    assert_eq!(t.output_dir(), &PathBuf::from("out"));
    assert_ne!(WorldGenType::Flat, WorldGenType::Normal);
}

use voxelnaut::chunk_file::{read_chunk_file, write_chunk_file, ChunkFileError, CHUNK_FILE_LEN};

#[test]
fn chunk_file_round_trip() {
    let mut c = Chunk::new(ChunkPos::new(-7, 123456));
    c.set_block_local(31, 31, 31, 0xBEEF);
    c.set_block_local(0, 0, 0, 3);
    let bytes = write_chunk_file(c.position, 9, &c.blocks);
    assert_eq!(bytes.len(), CHUNK_FILE_LEN);
    assert_eq!(&bytes[..4], b"VNC1");
    assert_eq!(&bytes[4..8], &(-7i32).to_le_bytes());
    assert_eq!(&bytes[16..18], &3u16.to_le_bytes());
    let back = read_chunk_file(&bytes, c.position).unwrap();
    assert_eq!(back.biome, 9);
    assert_eq!(back.blocks, c.blocks);
}

#[test]
fn chunk_file_errors() {
    let c = Chunk::new(ChunkPos::new(1, 2));
    let bytes = write_chunk_file(c.position, 0, &c.blocks);
    assert_eq!(read_chunk_file(&bytes[..3], c.position).err(), Some(ChunkFileError::UnexpectedEnd));
    let mut bad = bytes.clone();
    bad[0] = b'X';
    assert_eq!(read_chunk_file(&bad, c.position).err(), Some(ChunkFileError::BadMagic));
    assert_eq!(read_chunk_file(&bytes[..10], c.position).err(), Some(ChunkFileError::UnexpectedEnd));
    assert_eq!(read_chunk_file(&bytes, ChunkPos::new(1, 3)).err(), Some(ChunkFileError::PositionMismatch));
    assert_eq!(read_chunk_file(&bytes[..100], c.position).err(), Some(ChunkFileError::UnexpectedEnd));
}

use voxelnaut::chunk_manager::ChunkManager;

#[test]
fn manager_read_after_write_across_chunks() {
    let mut m = ChunkManager::new(8);
    m.load_chunk(Chunk::new(ChunkPos::new(0, 0)));
    m.load_chunk(Chunk::new(ChunkPos::new(-1, 2)));
    let a = BlockPos::new(5, 10, 7);
    let b = BlockPos::new(-3, 31, 70);
    m.set_block(a, 4);
    m.set_block(b, 9);
    assert_eq!(m.get_block(a), 4);
    assert_eq!(m.get_block(b), 9);
    assert_eq!(m.get_block(BlockPos::new(5, 11, 7)), 0);
    // unloaded chunk, or outside the chunk height: air, and writes are dropped
    m.set_block(BlockPos::new(100, 1, 1), 3);
    assert_eq!(m.get_block(BlockPos::new(100, 1, 1)), 0);
    m.set_block(BlockPos::new(1, 40, 1), 3);
    assert_eq!(m.get_block(BlockPos::new(1, 40, 1)), 0);
    assert!(m.get_chunk(ChunkPos::new(0, 0)).unwrap().is_dirty);
}

#[test]
fn manager_load_replace_unload() {
    let mut m = ChunkManager::default();
    assert!(!m.is_loaded(ChunkPos::new(1, 1)));
    let mut c = Chunk::new(ChunkPos::new(1, 1));
    c.mark_generated();
    m.load_chunk(c);
    assert!(m.is_loaded(ChunkPos::new(1, 1)));
    assert!(m.is_generated(ChunkPos::new(1, 1)));
    m.load_chunk(Chunk::new(ChunkPos::new(1, 1)));
    assert!(!m.is_generated(ChunkPos::new(1, 1)));
    assert_eq!(m.loaded_positions(), vec![ChunkPos::new(1, 1)]);
    assert_eq!(m.stats().loaded, 1);
    assert!(m.unload_chunk(ChunkPos::new(1, 1)));
    assert!(!m.unload_chunk(ChunkPos::new(1, 1)));
    assert_eq!(m.stats().loaded, 0);
    assert!(m.loaded_positions().is_empty());
}

#[test]
fn manager_evicts_earliest_clean_chunk() {
    let mut m = ChunkManager::new(2);
    m.load_chunk(Chunk::new(ChunkPos::new(0, 0)));
    m.load_chunk(Chunk::new(ChunkPos::new(1, 0)));
    m.set_block(BlockPos::new(0, 0, 0), 1); // chunk (0, 0) now has unsaved changes
    m.load_chunk(Chunk::new(ChunkPos::new(2, 0)));
    assert_eq!(m.loaded_positions(), vec![ChunkPos::new(0, 0), ChunkPos::new(2, 0)]);
    m.set_block(BlockPos::new(64, 0, 0), 1);
    // every chunk is dirty: nothing is evicted
    m.load_chunk(Chunk::new(ChunkPos::new(3, 0)));
    assert_eq!(m.loaded_positions().len(), 3);
}

#[test]
fn manager_generation_queue() {
    let mut m = ChunkManager::new(4);
    m.max_generate_queue = 2;
    m.queue_generation(ChunkPos::new(0, 0));
    m.queue_generation(ChunkPos::new(0, 0));
    m.queue_generation(ChunkPos::new(1, 0));
    m.queue_generation(ChunkPos::new(2, 0));
    assert_eq!(m.pending_count(), 2);
    assert_eq!(m.pop_generation_queue(), Some(ChunkPos::new(0, 0)));
    assert_eq!(m.pop_generation_queue(), Some(ChunkPos::new(1, 0)));
    assert_eq!(m.pop_generation_queue(), None);
    m.set_render_distance(12);
    assert_eq!(m.get_render_distance(), 12);
    m.load_chunk(Chunk::new(ChunkPos::new(0, 0)));
    m.clear();
    assert!(!m.is_loaded(ChunkPos::new(0, 0)));
    assert_eq!(m.stats().pending, 0);
}

use voxelnaut::chunk_manager::{break_block, place_block};

#[test]
fn place_and_break_blocks() {
    let mut m = ChunkManager::new(4);
    m.load_chunk(Chunk::new(ChunkPos::new(0, 0)));
    let p = BlockPos::new(3, 3, 3);
    assert_eq!(break_block(&mut m, p), None);
    place_block(&mut m, p, 17);
    assert_eq!(m.get_block(p), 17);
    assert_eq!(break_block(&mut m, p), Some(17));
    assert_eq!(m.get_block(p), 0);
    assert_eq!(break_block(&mut m, BlockPos::new(500, 3, 3)), None);
}

use voxelnaut::waypoints::{make_waypoint_id, WaypointManager};

#[test]
fn waypoint_ids() {
    assert_eq!(make_waypoint_id(1234567, "My Base"), "wp_1234567_my_base");
    assert_eq!(make_waypoint_id(0, "ÉCOLE Nord"), "wp_0_école_nord");
    assert_eq!(make_waypoint_id(u128::MAX, ""), format!("wp_{}_", u128::MAX));
}

#[test]
fn waypoint_manager_add_find_remove() {
    let mut m: WaypointManager<[f32; 3]> = WaypointManager::new();
    assert_eq!(m.max_waypoints, 20);
    let id = m.add_waypoint("Home Base", [1.0, 64.0, -2.5], DimensionId(0)).unwrap().id.clone();
    assert!(id.starts_with("wp_") && id.ends_with("_home_base"));
    m.add_waypoint("Moon", [0.0, 70.0, 0.0], DimensionId(1));
    assert_eq!(m.get_waypoint(&id).unwrap().name, "Home Base");
    assert_eq!(m.get_waypoint(&id).unwrap().icon, "waypoint");
    assert_eq!(m.get_waypoints_in_dimension(DimensionId(1)).len(), 1);
    assert!(m.remove_waypoint(&id));
    assert!(!m.remove_waypoint(&id));
    assert!(m.get_waypoint(&id).is_none());
    assert_eq!(m.waypoints.len(), 1);
    m.max_waypoints = 1;
    assert!(m.add_waypoint("Full", [0.0; 3], DimensionId(0)).is_none());
}

#[test]
fn test_dimension_count() {
    let manager = DimensionManager::new();
    assert!(manager.count() >= 14);
}

#[test]
fn test_change_dimension() {
    let mut manager = DimensionManager::new();
    assert_eq!(manager.current(), DimensionId(DIM_OVERWORLD));

    manager.change_dimension(DimensionId(DIM_MOON));
    assert_eq!(manager.current(), DimensionId(DIM_MOON));
}

#[test]
fn test_visited() {
    let mut manager = DimensionManager::new();
    assert!(manager.has_visited(DimensionId(DIM_OVERWORLD)));
    assert!(!manager.has_visited(DimensionId(DIM_MARS)));

    manager.change_dimension(DimensionId(DIM_MARS));
    assert!(manager.has_visited(DimensionId(DIM_MARS)));
}

#[test]
fn default_dimension_table() {
    let dims = Dimension::default_dimensions();
    assert_eq!(dims.len(), DIMENSION_COUNT as usize);
    let over = &dims[0];
    assert_eq!(over.name, "Overworld");
    assert_eq!(over.spawn_y, 80);
    assert!(over.can_respawn && over.has_sky);
    assert_eq!(over.required_crystal, 0);
    assert_eq!(over.biomes.len(), 6);
    let moon = &dims[1];
    assert_eq!(moon.name, "The Moon");
    assert_eq!(moon.description, "A barren satellite with craters and dust");
    assert_eq!(moon.required_crystal, 220);
    assert_eq!(moon.seed_offset, 1000);
    assert_eq!(moon.biomes, vec![Biome::LunarPlains, Biome::LunarCrater, Biome::LunarHighland]);
    assert!(!moon.can_respawn);
    assert_eq!(dims[5].spawn_y, 128);
    assert!(!dims[9].has_sky && !dims[10].has_sky);
    assert_eq!(dims[13].name, "Frost Realm");
    assert_eq!(dims[13].required_crystal, 232);
    assert_eq!(dims[13].seed_offset, 13000);
    for (i, d) in dims.iter().enumerate() {
        assert_eq!(d.id, DimensionId(i as u16));
    }
}

#[test]
fn dimension_manager_lookups() {
    let mut manager = DimensionManager::default();
    assert_eq!(manager.count(), 14);
    assert_eq!(manager.get(DimensionId(DIM_MARS)).map(|d| d.name.clone()), Some("Mars".to_string()));
    assert!(manager.get(DimensionId(40)).is_none());
    assert_eq!(manager.get_id_by_name("mars"), Some(DimensionId(DIM_MARS)));
    assert_eq!(manager.get_id_by_name("THE MOON"), Some(DimensionId(DIM_MOON)));
    assert_eq!(manager.get_id_by_name("Atlantis"), None);
    assert!(manager.get_by_name("frost realm").is_some());
    let all = manager.all();
    assert_eq!(all.len(), 14);
    assert_eq!(all[2].name, "Mars");
    assert!(manager.can_access(DimensionId(DIM_OVERWORLD)));
    assert!(manager.can_access(DimensionId(13)));
    assert!(!manager.can_access(DimensionId(14)));

    assert!(manager.change_dimension(DimensionId(99)).is_none());
    assert_eq!(manager.current(), DimensionId(DIM_OVERWORLD));
    assert_eq!(manager.change_dimension(DimensionId(DIM_MARS)).map(|d| d.spawn_y), Some(64));
    manager.change_dimension(DimensionId(DIM_MOON));
    assert_eq!(manager.visited(), vec![DimensionId(0), DimensionId(1), DimensionId(2)]);

    if let Some(d) = manager.get_mut(DimensionId(DIM_MOON)) {
        d.spawn_y = 70;
    }
    assert_eq!(manager.get(DimensionId(DIM_MOON)).map(|d| d.spawn_y), Some(70));
    assert!(manager.get_mut(DimensionId(77)).is_none());
}

#[test]
fn biome_definitions() {
    let plains = BiomeDefinition::new(Biome::Plains);
    assert_eq!(plains.name, "Plains");
    assert_eq!(plains.color, 0x8DB360);
    assert_eq!((plains.surface_block, plains.under_surface_block, plains.fluid_block), (4, 3, 6));
    let desert = BiomeDefinition::new(Biome::Desert);
    assert_eq!(desert.fluid_block, 0);
    assert_eq!(desert.under_surface_block, 22);
    let manager = BiomeManager::default();
    assert_eq!(manager.get_all().len(), 14);
    assert_eq!(manager.get(Biome::SnowyTundra).name, "Snowy Tundra");
    assert_eq!(manager.get(Biome::Badlands).foliage_color, 0x705030);
    for (i, d) in manager.get_all().iter().enumerate() {
        assert_eq!(d.biome, Biome::overworld_biomes()[i]);
    }
}

#[test]
fn mesh_indices_and_merge() {
    let mut a: Mesh<char> = Mesh::new();
    a.add_quad_vertices('a', 'b', 'c', 'd');
    assert_eq!(a.vertices, vec!['a', 'b', 'c', 'd']);
    assert_eq!(a.indices, vec![0, 1, 2, 0, 2, 3]);
    let mut b: Mesh<char> = Mesh::new();
    b.add_quad_vertices('e', 'f', 'g', 'h');
    a.merge(&b);
    assert_eq!(a.vertices.len(), 8);
    assert_eq!(a.indices, vec![0, 1, 2, 0, 2, 3, 4, 5, 6, 4, 6, 7]);
    a.clear();
    assert!(a.vertices.is_empty() && a.indices.is_empty());
}

#[test]
fn lone_block_shows_six_faces() {
    let mut blocks = vec![0u16; 32 * 32 * 32];
    blocks[1 + 2 * 32 + 3 * 1024] = 5;
    let faces = visible_faces(&blocks);
    assert_eq!(faces.len(), 6);
    assert!(faces.iter().all(|f| (f.0, f.1, f.2) == (1, 3, 2)));
    // A neighbour on top hides both touching faces.
    blocks[1 + 2 * 32 + 4 * 1024] = 5;
    let faces = visible_faces(&blocks);
    assert_eq!(faces.len(), 10);
    assert!(!faces.contains(&(1, 3, 2, Direction::Up)));
    assert!(!faces.contains(&(1, 4, 2, Direction::Down)));
    // Blocks on the edge of the cube show their outer face.
    let mut edge = vec![0u16; 32 * 32 * 32];
    edge[0] = 1;
    assert_eq!(visible_faces(&edge).len(), 6);
    assert!(visible_faces(&[]).is_empty());
}

#[test]
fn terrain_columns() {
    assert_eq!(generate_block(-64, 70, Biome::Plains), 8);
    assert_eq!(generate_block(-100, 70, Biome::Plains), 8);
    assert_eq!(generate_block(70, 70, Biome::Plains), 2);
    assert_eq!(generate_block(70, 70, Biome::Desert), 12);
    assert_eq!(generate_block(70, 70, Biome::SnowyTundra), 80);
    assert_eq!(generate_block(67, 70, Biome::Plains), 3);
    assert_eq!(generate_block(67, 70, Biome::Beach), 12);
    assert_eq!(generate_block(66, 70, Biome::Plains), 1);
    assert_eq!(generate_block(71, 70, Biome::Plains), 0);
    assert_eq!(generate_block(60, 50, Biome::Ocean), 6);
    assert_eq!(generate_block(65, 50, Biome::Ocean), 0);
    assert_eq!(cave_fill(-30), 11);
    assert_eq!(cave_fill(0), 0);
    assert_eq!(clamp_surface_height(-100), -62);
    assert_eq!(clamp_surface_height(300), 256);
    assert_eq!(clamp_surface_height(70), 70);
    assert_eq!(ore_block_id(OreType::Diamond), 22);
    let placements = ore_placements();
    assert_eq!(placements.len(), 8);
    assert_eq!((placements[6].ore, placements[6].min_height, placements[6].max_height), (OreType::Diamond, -64, 0));
}

#[test]
fn terrain_fill_carve_and_ores() {
    let heights = vec![40i32; 1024];
    let biomes = vec![Biome::Plains; 1024];
    // Chunk height 1 covers heights 32 to 63.
    let mut blocks = fill_terrain(1, &heights, &biomes);
    assert_eq!(blocks.len(), 32768);
    let at = |x: usize, y: usize, z: usize| y * 1024 + z * 32 + x;
    assert_eq!(blocks[at(0, 8, 0)], 2); // height 40: grass
    assert_eq!(blocks[at(0, 7, 5)], 3); // height 39: dirt
    assert_eq!(blocks[at(0, 4, 5)], 1); // height 36: stone
    assert_eq!(blocks[at(3, 9, 3)], 6); // height 41: water below the sea
    let mut cave = vec![false; 32768];
    cave[at(1, 2, 1)] = true; // height 34: carved to air
    cave[at(1, 7, 1)] = true; // height 39: too close to the surface
    carve_caves(&mut blocks, 1, &heights, &cave);
    assert_eq!(blocks[at(1, 2, 1)], 0);
    assert_eq!(blocks[at(1, 7, 1)], 3);
    let mut ravine = vec![false; 1024];
    ravine[2 * 32 + 2] = true;
    carve_ravines(&mut blocks, 1, &ravine);
    assert_eq!(blocks[at(2, 0, 2)], 0); // height 32, within the ravine band
    assert_eq!(blocks[at(2, 29, 2)], 6); // water stays
    let before = blocks.clone();
    carve_ravines(&mut blocks, 3, &ravine); // starts above the sea: nothing
    assert_eq!(blocks, before);

    let mut stone = vec![1u16; 32768];
    stone[at(6, 5, 5)] = 3;
    let mut hits = vec![false; 32768];
    hits[at(5, 5, 5)] = true;
    let coal = ore_placements()[0];
    // Chunk height 0 covers heights 0 to 31, inside coal's range.
    place_ore(&mut stone, 0, coal, &hits, true);
    assert_eq!(stone[at(5, 5, 5)], 16);
    assert_eq!(stone[at(4, 5, 5)], 16);
    assert_eq!(stone[at(5, 6, 5)], 16);
    assert_eq!(stone[at(6, 5, 5)], 3); // dirt is not stone
    assert_eq!(stone[at(7, 5, 5)], 1);
    let mut plain = vec![1u16; 32768];
    place_ore(&mut plain, 0, coal, &hits, false);
    assert_eq!(plain.iter().filter(|b| **b == 16).count(), 1);
    let emeralds = ore_placements()[7];
    let mut high = vec![1u16; 32768];
    place_ore(&mut high, 0, emeralds, &hits, true);
    assert!(high.iter().all(|b| *b == 1));
}

#[test]
fn stats_tracker_counts_each_event() {
    let mut t: StatsTracker<f64> = StatsTracker::new();
    t.record_block_mined();
    t.record_block_mined();
    t.record_block_placed();
    t.record_death();
    t.record_mob_kill();
    t.record_mob_kill();
    t.record_mob_kill();
    t.record_item_crafted();
    t.record_jump();
    t.record_dimension_travel();
    let s = t.get_stats();
    assert_eq!(s.blocks_mined, 2);
    assert_eq!(s.blocks_placed, 1);
    assert_eq!(s.deaths, 1);
    assert_eq!(s.mobs_killed, 3);
    assert_eq!(s.items_crafted, 1);
    assert_eq!(s.jumps_made, 1);
    assert_eq!(s.dimension_travels, 1);
    assert_eq!(s.time_played, 0);
    assert_eq!(s.distance_traveled, 0.0);
}

#[test]
fn stats_tracker_lists_each_dimension_once() {
    let mut t: StatsTracker<f64> = StatsTracker::default();
    t.record_visit_dimension(DimensionId(DIM_MOON));
    t.record_visit_dimension(DimensionId(DIM_MARS));
    t.record_visit_dimension(DimensionId(DIM_MOON));
    assert_eq!(t.get_stats().dimensions_visited, vec![DimensionId(DIM_MOON), DimensionId(DIM_MARS)]);
    let g: GameStats<f64> = GameStats::default();
    assert!(g.dimensions_visited.is_empty());
    assert_eq!(g.blocks_mined, 0);
}

#[test]
fn path_best_effort_ends_nearest_the_goal() {
    let finder = Pathfinder::new(|p: BlockPos| p.y == 0 && p.z == 0 && [-1, 0, 1, 5].contains(&p.x));
    let req = PathRequest { start: BlockPos::new(0, 0, 0), end: BlockPos::new(5, 0, 0), max_distance: 10 };
    let r = finder.find_path(&req);
    assert!(!r.reached);
    assert_eq!(r.waypoints, vec![BlockPos::new(0, 0, 0), BlockPos::new(1, 0, 0)]);
    let (r2, n) = finder.find_path_counted(&req);
    assert!(!r2.reached);
    assert!(n <= 1000);
}

#[test]
fn path_to_itself_is_one_point() {
    let q = PathRequest { start: BlockPos::new(1, 2, 3), end: BlockPos::new(1, 2, 3), max_distance: 1 };
    let a = Pathfinder::new(|_: BlockPos| true).find_path(&q);
    assert!(a.reached);
    assert_eq!(a.waypoints, vec![BlockPos::new(1, 2, 3)]);
    let b = Pathfinder::new(|_: BlockPos| false).find_path(&q);
    assert!(!b.reached);
    assert!(b.waypoints.is_empty());
}

#[test]
fn block_pos_directions() {
    assert_eq!(BlockPos::zero(), BlockPos::new(0, 0, 0));
    assert_eq!(BlockPos::up(), BlockPos::new(0, 1, 0));
    assert_eq!(BlockPos::down(), BlockPos::new(0, -1, 0));
    assert_eq!(BlockPos::left(), BlockPos::new(-1, 0, 0));
    assert_eq!(BlockPos::right(), BlockPos::new(1, 0, 0));
    assert_eq!(BlockPos::forward(), BlockPos::new(0, 0, 1));
    assert_eq!(BlockPos::back(), BlockPos::new(0, 0, -1));
}
