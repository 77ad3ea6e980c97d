use voxelnaut::ai::{AIState, MobState, MobType, SpawnType};
use voxelnaut::audio::{AudioManager, MusicPlayer, MusicDatabase, MusicGenre, MusicId, SfxId, SoundCategory, MUSIC_CALM, MUSIC_END, MUSIC_HAL, MUSIC_TITLE, SFX_NONE};
use voxelnaut::block::BlockId;
use voxelnaut::item::ItemStack;
use voxelnaut::math::BlockPos;
use voxelnaut::menu::{CreateWorldState, GameState, GeneratorOptions, MainMenuState, MenuManager, MultiplayerMenuState, WorldType};
use voxelnaut::physics::{is_solid_block, BodyType, CollisionResolver, MovementInput, MovementSystem, VehicleType};
use voxelnaut::render::{CameraMode, Projection, ShaderModule};
use voxelnaut::inventory::Inventory;
use voxelnaut::ui::{DragState, HudElement, HudManager, InventoryTab, InventoryUI, QualityPreset, SettingsTab, SettingsUI};

#[test]
fn menu_starts_at_main_menu() {
    let m = MenuManager::new();
    assert_eq!(m.get_state(), GameState::MainMenu);
    assert!(m.is_menu() && !m.is_playing() && !m.is_paused());
    assert_eq!(m.previous_state, None);
    assert_eq!(m.main_menu.version_string, "v0.1.0-alpha");
    assert_eq!(m.create_world.world_name, "New World");
}

#[test]
fn pause_and_resume() {
    let mut m = MenuManager::default();
    m.set_state(GameState::Pause);
    assert_eq!(m.get_state(), GameState::MainMenu);
    m.set_state(GameState::Playing);
    assert!(m.is_playing() && !m.is_menu());
    m.set_state(GameState::Pause);
    assert!(m.is_paused() && m.is_menu());
    assert_eq!(m.previous_state, Some(GameState::Playing));
    m.resume();
    assert!(m.is_playing());
    m.resume();
    assert!(m.is_playing());
    m.back_to_main_menu();
    assert_eq!((m.get_state(), m.previous_state), (GameState::MainMenu, None));
}

#[test]
fn menu_screens_defaults() {
    let mm = MainMenuState::default();
    assert_eq!(mm.selected_button, 0);
    assert!(mm.show_disclaimer);
    let mp = MultiplayerMenuState::new();
    assert!(mp.session_code.is_empty() && mp.players.is_empty() && !mp.is_host);
    let cw = CreateWorldState::default();
    assert_eq!(cw.world_type, WorldType::Normal);
    assert_eq!(cw.generator_options.dungeon_count, 7);
    assert!(cw.seed.is_empty());
    let g = GeneratorOptions::default();
    assert!(g.generate_structures && g.generate_ores && g.generate_caves && g.generate_rivers);
}

#[test]
fn ui_tabs_and_elements() {
    assert_eq!(HudElement::all().len(), 14);
    assert_eq!(HudElement::all()[13], HudElement::ActionBar);
    assert_eq!(InventoryTab::all().len(), 7);
    assert_eq!(InventoryTab::Enchants.name(), "Enchanting");
    assert_eq!(SettingsTab::all()[4], SettingsTab::RemotePlay);
    assert_eq!(SettingsTab::RemotePlay.name(), "Remote Play");
    assert_eq!(QualityPreset::default(), QualityPreset::Balanced);
    let d = DragState { source_slot: 2, source_inventory: "main".to_string(), item: ItemStack::new(1, 5) };
    assert_eq!(d.item.count, 5);
}

#[test]
fn music_database_contents() {
    let db = MusicDatabase::new();
    assert_eq!(db.tracks().len(), 6);
    assert_eq!(db.get(MusicId(MUSIC_TITLE)).unwrap().name, "Menu Theme");
    assert_eq!(db.get(MusicId(MUSIC_END)).unwrap().duration_secs, 360);
    assert!(db.get(MusicId(99)).is_none());
    let forest: Vec<u32> = db.get_for_biome("forest").iter().map(|t| t.id.0).collect();
    assert_eq!(forest, vec![MUSIC_TITLE, MUSIC_CALM, 2, 6]);
    let taiga: Vec<u32> = db.get_for_biome("taiga").iter().map(|t| t.id.0).collect();
    assert_eq!(taiga, vec![MUSIC_TITLE, 2, MUSIC_HAL, 6]);
    assert_eq!(db.pick_of_genre(MusicGenre::Swamp, 123).unwrap().name, "Swamp");
    assert!(db.pick_of_genre(MusicGenre::Piano, 0).is_none());
    assert_eq!(db.get_random_of_genre(MusicGenre::Calm).unwrap().id, MusicId(MUSIC_CALM));
    assert!(db.get_random_of_genre(MusicGenre::Nether).is_none());
    assert_eq!(SfxId(SFX_NONE), SfxId(0));
    assert_ne!(SoundCategory::Music, SoundCategory::Master);
}

#[test]
fn solid_blocks() {
    for id in [1u16, 2, 3, 4, 5, 7, 8, 11, 12, 15, 16, 17, 18, 19] {
        assert!(is_solid_block(id));
    }
    for id in [0u16, 6, 9, 10, 20, 200] {
        assert!(!is_solid_block(id));
    }
}

#[test]
fn collision_lookup() {
    let floor = |p: BlockPos| -> BlockId { if p.y < 0 { 1 } else { 0 } };
    let c = CollisionResolver::new(floor);
    assert_eq!(c.block_at(BlockPos::new(0, -1, 0)), 1);
    assert!(c.is_solid_at(BlockPos::new(3, -5, 3)));
    assert!(!c.is_solid_at(BlockPos::new(3, 5, 3)));
    let m = MovementSystem::new(c);
    assert!(m.collision().is_solid_at(BlockPos::new(0, -1, 0)));
    let input = MovementInput::default();
    assert!(!input.forward && !input.jump && !input.sneak);
}

#[test]
fn enum_vocabulary() {
    assert_ne!(BodyType::Static, BodyType::Dynamic);
    assert_ne!(VehicleType::Car, VehicleType::Boat);
    assert_ne!(CameraMode::FirstPerson, CameraMode::Spectator);
    assert_ne!(Projection::Perspective, Projection::Orthographic);
    assert_eq!(ShaderModule::new(), ShaderModule::default());
    assert_ne!(MobState::Idle, MobState::Dead);
    assert_ne!(MobType::Zombie, MobType::Sheep);
    assert_ne!(SpawnType::Nether, SpawnType::End);
    assert_ne!(AIState::pathfind_to, AIState::Idle);
}

#[test]
fn inventory_window_drag_and_drop() {
    let mut inv = Inventory::new(36);
    inv.add_item(16, 10);
    inv.add_item(17, 5);
    let a = inv.find_item(16).unwrap();
    let b = inv.find_item(17).unwrap();
    let mut ui = InventoryUI::new();
    assert!(!ui.is_open());
    ui.toggle();
    assert!(ui.is_open());
    ui.set_tab(InventoryTab::Crafting);
    assert_eq!(ui.current_tab(), InventoryTab::Crafting);
    assert_eq!(ui.get_hovered(), (None, "main"));

    // Clicking an empty slot without a drag does nothing.
    ui.handle_slot_click(20, "main", &mut inv);
    assert!(!ui.is_dragging());
    // Pick up the coal, drop it on the iron: they trade places.
    ui.handle_slot_click(a, "main", &mut inv);
    assert!(ui.is_dragging());
    assert_eq!(ui.get_drag_state().map(|d| (d.source_slot, d.item)), Some((a, ItemStack::new(16, 10))));
    ui.handle_slot_click(b, "main", &mut inv);
    assert!(!ui.is_dragging());
    assert_eq!(inv.get_slot(a).unwrap().get_stack(), Some(ItemStack::new(17, 5)));
    assert_eq!(inv.get_slot(b).unwrap().get_stack(), Some(ItemStack::new(16, 10)));
    // Move the coal into an empty slot.
    ui.handle_slot_click(b, "main", &mut inv);
    ui.handle_slot_click(30, "main", &mut inv);
    assert!(inv.get_slot(b).unwrap().is_empty());
    assert_eq!(inv.get_slot(30).unwrap().get_stack(), Some(ItemStack::new(16, 10)));
    assert_eq!(inv.count_item(16), 10);
    // Closing drops any drag.
    ui.handle_slot_click(30, "main", &mut inv);
    ui.set_hovered(Some(3), "chest");
    assert_eq!(ui.get_hovered(), (Some(3), "chest"));
    ui.close();
    assert!(!ui.is_dragging() && !ui.is_open());
    assert_eq!(ui.end_drag().map(|d| d.source_slot), None);
}

#[test]
fn hud_toggles() {
    let mut hud = HudManager::default();
    assert!(!hud.is_debug_visible());
    assert!(!hud.is_element_visible(HudElement::DebugInfo));
    assert!(hud.is_element_visible(HudElement::Health));
    assert!(hud.is_hotbar_visible() && hud.is_crosshair_visible() && hud.is_fps_visible() && hud.is_coords_visible());
    hud.toggle_debug();
    assert!(hud.is_debug_visible() && hud.is_element_visible(HudElement::DebugInfo));
    hud.toggle_hotbar();
    assert!(!hud.is_hotbar_visible() && !hud.is_element_visible(HudElement::Hotbar));
    hud.toggle_crosshair();
    assert!(!hud.is_element_visible(HudElement::Crosshair));
    hud.set_element_visible(HudElement::Chat, false);
    assert!(!hud.is_element_visible(HudElement::Chat));
    assert!(hud.is_element_visible(HudElement::Title));
}

#[test]
fn settings_window_backup() {
    let mut ui: SettingsUI<Vec<u8>> = SettingsUI::new();
    assert_eq!(ui.active_tab, SettingsTab::Graphics);
    ui.open(&vec![1, 2, 3]);
    assert!(!ui.is_modified());
    assert_eq!(ui.close(), None);
    ui.mark_changed();
    assert!(ui.is_modified());
    assert_eq!(ui.close(), Some(vec![1, 2, 3]));
    assert_eq!(ui.revert(), Vec::<u8>::new());
    ui.open(&vec![9]);
    assert_eq!(ui.revert(), vec![9]);
    assert!(ui.settings_backup.is_none());
}

#[test]
fn collision_box_scans() {
    let resolver = CollisionResolver::new(|p: BlockPos| -> BlockId {
        if p.y < 0 {
            1
        } else if p == BlockPos::new(1, 0, 1) {
            10
        } else if p.y == 0 {
            8
        } else {
            0
        }
    });
    assert!(resolver.check_collision_in(BlockPos::new(0, -1, 0), BlockPos::new(0, 0, 0)));
    assert!(resolver.check_collision_in(BlockPos::new(0, 0, 0), BlockPos::new(0, 3, 0)));
    assert!(!resolver.check_collision_in(BlockPos::new(0, 1, 0), BlockPos::new(0, 3, 0)));
    assert!(!resolver.check_collision_in(BlockPos::new(1, 0, 1), BlockPos::new(1, 2, 1)));
    assert!(resolver.check_collision_in(BlockPos::new(0, 0, 0), BlockPos::new(2, 2, 2)));
    assert!(!resolver.check_collision_in(BlockPos::new(5, 5, 5), BlockPos::new(4, 4, 4)));
    let solid = resolver.get_solid_blocks_in(BlockPos::new(0, -1, 0), BlockPos::new(1, 0, 1));
    assert_eq!(
        solid,
        vec![
            (BlockPos::new(0, -1, 0), 1),
            (BlockPos::new(0, -1, 1), 1),
            (BlockPos::new(0, 0, 0), 8),
            (BlockPos::new(0, 0, 1), 8),
            (BlockPos::new(1, -1, 0), 1),
            (BlockPos::new(1, -1, 1), 1),
            (BlockPos::new(1, 0, 0), 8),
        ]
    );
}

#[test]
fn audio_manager_plays_music_only_when_enabled() {
    let mut audio: AudioManager<&str, &str> = AudioManager::new();
    assert!(audio.is_available());
    assert_eq!(audio.get_current_music(), None);
    audio.play_music(MusicId(MUSIC_CALM));
    assert_eq!(audio.get_current_music(), Some(MusicId(MUSIC_CALM)));
    audio.set_enabled(false);
    assert!(!audio.play_sfx(SfxId(3)));
    assert!(!audio.play_beep(100));
    audio.play_music(MusicId(MUSIC_END));
    assert_eq!(audio.get_current_music(), Some(MusicId(MUSIC_CALM)));
    audio.stop_music();
    assert_eq!(audio.get_current_music(), None);
    audio.set_enabled(true);
    assert!(audio.play_sfx(SfxId(3)));
    audio.play_music(MusicId(MUSIC_END));
    assert_eq!(audio.get_current_music(), Some(MusicId(MUSIC_END)));
}

#[test]
fn audio_manager_counts_distinct_ids() {
    let mut audio: AudioManager<&str, &str> = AudioManager::default();
    audio.register_sound(SfxId(1), "click");
    audio.register_sound(SfxId(2), "step");
    audio.register_sound(SfxId(1), "click2");
    audio.register_music(MusicId(MUSIC_TITLE), "menu");
    assert_eq!(audio.get_sound_count(), 2);
    assert_eq!(audio.get_music_count(), 1);
}

#[test]
fn music_player_play_queue_stop() {
    let db = MusicDatabase::new();
    let calm = db.get(MusicId(MUSIC_CALM)).unwrap().clone();
    let hal = db.get(MusicId(MUSIC_HAL)).unwrap().clone();
    let mut player = MusicPlayer::new();
    assert!(player.current_track().is_none());
    player.play(calm);
    player.queue_next(hal);
    let cur = player.current_track().unwrap();
    assert_eq!(cur.id, MusicId(MUSIC_CALM));
    assert_eq!(cur.name, "Calm");
    assert_eq!(cur.biomes, vec!["plains".to_string(), "forest".to_string()]);
    player.clear_next();
    assert_eq!(player.current_track().unwrap().id, MusicId(MUSIC_CALM));
    player.stop();
    assert!(player.current_track().is_none());
    let d = MusicPlayer::default();
    assert!(d.current_track().is_none());
}
