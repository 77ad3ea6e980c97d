//! Player-facing settings and their defaults.

use vstd::prelude::*;

verus! {

/// Shadow quality levels.
#[derive(Debug, Clone, Copy, PartialEq, Eq, Structural)]
pub enum ShadowQuality {
    Off,
    Low,
    Medium,
    High,
    Ultra,
}

impl Default for ShadowQuality {
    fn default() -> (q: Self)
        ensures
            q == ShadowQuality::Medium,
    {
        ShadowQuality::Medium
    }
}

/// Texture quality levels.
#[derive(Debug, Clone, Copy, PartialEq, Eq, Structural)]
pub enum TextureQuality {
    Low,
    Medium,
    High,
}

impl Default for TextureQuality {
    fn default() -> (q: Self)
        ensures
            q == TextureQuality::High,
    {
        TextureQuality::High
    }
}

/// Difficulty levels.
#[derive(Debug, Clone, Copy, PartialEq, Eq, Structural)]
pub enum Difficulty {
    Peaceful,
    Easy,
    Normal,
    Hard,
}

impl Default for Difficulty {
    fn default() -> (d: Self)
        ensures
            d == Difficulty::Normal,
    {
        Difficulty::Normal
    }
}

/// Gameplay settings.
#[derive(Debug, Clone, Copy, PartialEq, Eq, Structural)]
pub struct GameplaySettings {
    pub difficulty: Difficulty,
    /// Seconds between automatic saves.
    pub auto_save_interval: u32,
    pub show_hotbar: bool,
    pub auto_jump: bool,
    pub sprint_by_default: bool,
    pub dynamic_fov: bool,
}

impl Default for GameplaySettings {
    fn default() -> (g: Self)
        ensures
            g == (GameplaySettings {
                difficulty: Difficulty::Normal,
                auto_save_interval: 300,
                show_hotbar: true,
                auto_jump: true,
                sprint_by_default: false,
                dynamic_fov: true,
            }),
    {
        GameplaySettings {
            difficulty: Difficulty::Normal,
            auto_save_interval: 300,
            show_hotbar: true,
            auto_jump: true,
            sprint_by_default: false,
            dynamic_fov: true,
        }
    }
}

/// Network settings.
#[derive(Debug, Clone)]
pub struct NetworkSettings {
    pub max_peers: u8,
    pub stun_server: String,
    pub turn_enabled: bool,
    pub turn_server: Option<String>,
    pub turn_username: Option<String>,
    pub turn_password: Option<String>,
}

impl Default for NetworkSettings {
    fn default() -> (n: Self)
        ensures
            n.max_peers == 8,
            n.stun_server@ == "stun.l.google.com:19302"@,
            !n.turn_enabled,
            n.turn_server is None,
            n.turn_username is None,
            n.turn_password is None,
    {
        NetworkSettings {
            max_peers: 8,
            stun_server: "stun.l.google.com:19302".to_owned(),
            turn_enabled: false,
            turn_server: None,
            turn_username: None,
            turn_password: None,
        }
    }
}

/// Key bindings, each the name of a key or mouse button.
#[derive(Debug, Clone)]
pub struct KeyBindings {
    pub forward: String,
    pub backward: String,
    pub left: String,
    pub right: String,
    pub jump: String,
    pub sprint: String,
    pub sneak: String,
    pub inventory: String,
    pub drop: String,
    pub swap_hands: String,
    pub use_item: String,
    pub attack: String,
    pub pick_block: String,
    pub screenshot: String,
}

impl Default for KeyBindings {
    fn default() -> (k: Self)
        ensures
            k.forward@ == "KeyW"@,
            k.backward@ == "KeyS"@,
            k.left@ == "KeyA"@,
            k.right@ == "KeyD"@,
            k.jump@ == "Space"@,
            k.sprint@ == "ShiftLeft"@,
            k.sneak@ == "ControlLeft"@,
            k.inventory@ == "KeyE"@,
            k.drop@ == "KeyQ"@,
            k.swap_hands@ == "KeyF"@,
            k.use_item@ == "MouseLeft"@,
            k.attack@ == "MouseRight"@,
            k.pick_block@ == "MouseMiddle"@,
            k.screenshot@ == "F2"@,
    {
        KeyBindings {
            forward: "KeyW".to_owned(),
            backward: "KeyS".to_owned(),
            left: "KeyA".to_owned(),
            right: "KeyD".to_owned(),
            jump: "Space".to_owned(),
            sprint: "ShiftLeft".to_owned(),
            sneak: "ControlLeft".to_owned(),
            inventory: "KeyE".to_owned(),
            drop: "KeyQ".to_owned(),
            swap_hands: "KeyF".to_owned(),
            use_item: "MouseLeft".to_owned(),
            attack: "MouseRight".to_owned(),
            pick_block: "MouseMiddle".to_owned(),
            screenshot: "F2".to_owned(),
        }
    }
}

} // verus!
