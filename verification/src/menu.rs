//! Menu screens and the state machine that moves between them.

use vstd::prelude::*;

verus! {

/// Where the game is: a menu, loading, or playing.
#[derive(Debug, Clone, Copy, PartialEq, Eq, Structural)]
pub enum GameState {
    MainMenu,
    Singleplayer,
    MultiplayerMenu,
    SettingsMenu,
    CreateWorld,
    Loading,
    Playing,
    Pause,
    GameOver,
}

/// The main menu screen.
#[derive(Debug, Clone)]
pub struct MainMenuState {
    pub selected_button: usize,
    pub version_string: String,
    pub show_disclaimer: bool,
}

impl MainMenuState {
    pub fn new() -> (m: Self)
        ensures
            m.selected_button == 0,
            m.version_string@ == "v0.1.0-alpha"@,
            m.show_disclaimer,
    {
        MainMenuState { selected_button: 0, version_string: "v0.1.0-alpha".to_owned(), show_disclaimer: true }
    }
}

impl Default for MainMenuState {
    fn default() -> (m: Self)
        ensures
            m.selected_button == 0,
            m.version_string@ == "v0.1.0-alpha"@,
            m.show_disclaimer,
    {
        MainMenuState::new()
    }
}

/// The multiplayer menu screen.
#[derive(Debug, Clone)]
pub struct MultiplayerMenuState {
    pub session_code: String,
    pub is_host: bool,
    pub is_connecting: bool,
    pub connection_status: String,
    pub players: Vec<String>,
}

impl MultiplayerMenuState {
    pub fn new() -> (m: Self)
        ensures
            m.session_code@.len() == 0,
            !m.is_host,
            !m.is_connecting,
            m.connection_status@.len() == 0,
            m.players@.len() == 0,
    {
        MultiplayerMenuState {
            session_code: String::new(),
            is_host: false,
            is_connecting: false,
            connection_status: String::new(),
            players: Vec::new(),
        }
    }
}

impl Default for MultiplayerMenuState {
    fn default() -> (m: Self)
        ensures
            m.session_code@.len() == 0,
            !m.is_host,
            !m.is_connecting,
            m.connection_status@.len() == 0,
            m.players@.len() == 0,
    {
        MultiplayerMenuState::new()
    }
}

/// World generator kinds offered when creating a world.
#[derive(Debug, Clone, Copy, PartialEq, Eq, Structural)]
pub enum WorldType {
    Normal,
    Flat,
    LargeBiomes,
    Amplified,
}

impl Default for WorldType {
    fn default() -> (w: Self)
        ensures
            w == WorldType::Normal,
    {
        WorldType::Normal
    }
}

/// What the generator of a new world adds.
#[derive(Debug, Clone, Copy, PartialEq, Eq, Structural)]
pub struct GeneratorOptions {
    pub generate_structures: bool,
    pub generate_ores: bool,
    pub generate_caves: bool,
    pub generate_rivers: bool,
    pub dungeon_count: i32,
}

impl Default for GeneratorOptions {
    fn default() -> (g: Self)
        ensures
            g == (GeneratorOptions {
                generate_structures: true,
                generate_ores: true,
                generate_caves: true,
                generate_rivers: true,
                dungeon_count: 7,
            }),
    {
        GeneratorOptions {
            generate_structures: true,
            generate_ores: true,
            generate_caves: true,
            generate_rivers: true,
            dungeon_count: 7,
        }
    }
}

/// The world creation screen.
#[derive(Debug, Clone)]
pub struct CreateWorldState {
    pub world_name: String,
    pub seed: String,
    pub world_type: WorldType,
    pub generator_options: GeneratorOptions,
}

impl Default for CreateWorldState {
    fn default() -> (c: Self)
        ensures
            c.world_name@ == "New World"@,
            c.seed@.len() == 0,
            c.world_type == WorldType::Normal,
            c.generator_options == GeneratorOptions::default_options(),
    {
        CreateWorldState {
            world_name: "New World".to_owned(),
            seed: String::new(),
            world_type: WorldType::default(),
            generator_options: GeneratorOptions::default(),
        }
    }
}

impl GeneratorOptions {
    /// The options a new world starts with.
    pub open spec fn default_options() -> GeneratorOptions {
        GeneratorOptions {
            generate_structures: true,
            generate_ores: true,
            generate_caves: true,
            generate_rivers: true,
            dungeon_count: 7,
        }
    }
}

/// The state change of `set_state`: pausing is only possible while playing;
/// otherwise the current state becomes the previous one.
pub open spec fn spec_set_state(cur: GameState, prev: Option<GameState>, state: GameState) -> (GameState, Option<GameState>) {
    if state == GameState::Pause && cur != GameState::Playing {
        (cur, prev)
    } else {
        (state, Some(cur))
    }
}

/// The state change of `resume`: from the pause screen back to the previous
/// state (to playing when there is none); anywhere else nothing changes.
pub open spec fn spec_resume(cur: GameState, prev: Option<GameState>) -> (GameState, Option<GameState>) {
    if cur == GameState::Pause {
        match prev {
            Some(p) => (p, prev),
            None => (GameState::Playing, prev),
        }
    } else {
        (cur, prev)
    }
}

/// The screens the menu system shows.
pub open spec fn spec_is_menu(s: GameState) -> bool {
    s == GameState::MainMenu || s == GameState::Pause || s == GameState::SettingsMenu
        || s == GameState::Singleplayer || s == GameState::MultiplayerMenu
}

/// Coordinates the menu screens.
#[derive(Debug, Clone)]
pub struct MenuManager {
    pub current_state: GameState,
    pub main_menu: MainMenuState,
    pub multiplayer_menu: MultiplayerMenuState,
    pub create_world: CreateWorldState,
    pub previous_state: Option<GameState>,
}

impl MenuManager {
    /// At the main menu, with no previous state.
    pub fn new() -> (m: Self)
        ensures
            m.current_state == GameState::MainMenu,
            m.previous_state is None,
            m.main_menu.version_string@ == "v0.1.0-alpha"@,
            m.create_world.world_name@ == "New World"@,
    {
        MenuManager {
            current_state: GameState::MainMenu,
            main_menu: MainMenuState::new(),
            multiplayer_menu: MultiplayerMenuState::new(),
            create_world: CreateWorldState::default(),
            previous_state: None,
        }
    }

    pub fn get_state(&self) -> (s: GameState)
        ensures
            s == self.current_state,
    {
        self.current_state
    }

    /// Moves to `state`, remembering where it came from; a pause while not
    /// playing is ignored.
    pub fn set_state(&mut self, state: GameState)
        ensures
            (final(self).current_state, final(self).previous_state)
                == spec_set_state(old(self).current_state, old(self).previous_state, state),
            final(self).main_menu == old(self).main_menu,
            final(self).multiplayer_menu == old(self).multiplayer_menu,
            final(self).create_world == old(self).create_world,
    {
        if state == GameState::Pause && self.current_state != GameState::Playing {
            return;
        }
        self.previous_state = Some(self.current_state);
        self.current_state = state;
    }

    pub fn is_playing(&self) -> (b: bool)
        ensures
            b == (self.current_state == GameState::Playing),
    {
        self.current_state == GameState::Playing
    }

    pub fn is_paused(&self) -> (b: bool)
        ensures
            b == (self.current_state == GameState::Pause),
    {
        self.current_state == GameState::Pause
    }

    /// Whether a menu screen is showing.
    pub fn is_menu(&self) -> (b: bool)
        ensures
            b == spec_is_menu(self.current_state),
    {
        match self.current_state {
            GameState::MainMenu | GameState::Pause | GameState::SettingsMenu
            | GameState::Singleplayer | GameState::MultiplayerMenu => true,
            _ => false,
        }
    }

    /// Leaves the pause screen.
    pub fn resume(&mut self)
        ensures
            (final(self).current_state, final(self).previous_state)
                == spec_resume(old(self).current_state, old(self).previous_state),
            final(self).main_menu == old(self).main_menu,
            final(self).multiplayer_menu == old(self).multiplayer_menu,
            final(self).create_world == old(self).create_world,
    {
        if self.current_state == GameState::Pause {
            match self.previous_state {
                Some(prev) => { self.current_state = prev; },
                None => { self.current_state = GameState::Playing; },
            }
        }
    }

    /// Back to the main menu, forgetting the previous state.
    pub fn back_to_main_menu(&mut self)
        ensures
            final(self).current_state == GameState::MainMenu,
            final(self).previous_state is None,
            final(self).main_menu == old(self).main_menu,
            final(self).multiplayer_menu == old(self).multiplayer_menu,
            final(self).create_world == old(self).create_world,
    {
        self.current_state = GameState::MainMenu;
        self.previous_state = None;
    }
}

impl Default for MenuManager {
    fn default() -> (m: Self)
        ensures
            m.current_state == GameState::MainMenu,
            m.previous_state is None,
    {
        MenuManager::new()
    }
}

/// Pausing and resuming returns to play: from `Playing`, a pause followed by
/// a resume is `Playing` again, and the pause screen remembers `Playing`.
pub proof fn law_pause_resume(prev: Option<GameState>)
    ensures
        spec_set_state(GameState::Playing, prev, GameState::Pause) == (GameState::Pause, Some(GameState::Playing)),
        spec_resume(GameState::Pause, Some(GameState::Playing)).0 == GameState::Playing,
{
}

/// A pause is refused everywhere but in play: the state stays as it was.
pub proof fn law_pause_only_while_playing(cur: GameState, prev: Option<GameState>)
    requires
        cur != GameState::Playing,
    ensures
        spec_set_state(cur, prev, GameState::Pause) == (cur, prev),
{
}

/// The pause screen is only ever entered from play: whatever the state and
/// the request, once `set_state` leaves the game paused, either it was
/// already paused or it was playing and remembers so.
pub proof fn law_pause_entered_from_play(cur: GameState, prev: Option<GameState>, state: GameState)
    requires
        spec_set_state(cur, prev, state).0 == GameState::Pause,
    ensures
        cur == GameState::Pause || spec_set_state(cur, prev, state).1 == Some(GameState::Playing),
{
}

/// Resuming does nothing outside the pause screen.
pub proof fn law_resume_outside_pause(cur: GameState, prev: Option<GameState>)
    requires
        cur != GameState::Pause,
    ensures
        spec_resume(cur, prev) == (cur, prev),
{
}

} // verus!
