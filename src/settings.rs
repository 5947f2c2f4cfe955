//! Gameplay settings chosen by the player.

use vstd::prelude::*;

verus! {

/// How the movement keys map to directions on screen.
#[derive(Debug, Clone, Copy, PartialEq, Eq)]
pub enum MovementStyle {
    /// Keys move along the isometric diagonals.
    Isometric,
    /// Keys move along the screen's axes.
    ScreenSpaceOrthogonal,
}

/// Whether the player can move the camera.
#[derive(Debug, Clone, Copy, PartialEq, Eq)]
pub enum CameraControls {
    On,
    Off,
}

/// Which keys move the character.
#[derive(Debug, Clone, Copy, PartialEq, Eq)]
pub enum CharacterControls {
    WASD,
    Arrows,
}

/// Whether the developer cheats ("god mode") are on.
#[derive(Debug, Clone, Copy, PartialEq, Eq)]
pub enum DevCheatMode {
    Disabled,
    Enabled,
}

/// The gameplay settings of a profile.
#[derive(Debug, Clone, Copy, PartialEq, Eq)]
pub struct GameplaySettings {
    pub movement_style: MovementStyle,
    pub camera_controls: CameraControls,
    pub character_controls: CharacterControls,
    pub dev_cheat_mode: DevCheatMode,
}

impl Default for GameplaySettings {
    fn default() -> (r: Self)
        ensures
            r.movement_style == MovementStyle::Isometric,
            r.camera_controls == CameraControls::On,
            r.character_controls == CharacterControls::WASD,
            r.dev_cheat_mode == DevCheatMode::Disabled,
    {
        GameplaySettings {
            movement_style: MovementStyle::Isometric,
            camera_controls: CameraControls::On,
            character_controls: CharacterControls::WASD,
            dev_cheat_mode: DevCheatMode::Disabled,
        }
    }
}

impl CameraControls {
    pub fn on(&self) -> (r: bool)
        ensures
            r == (*self == CameraControls::On),
    {
        match self {
            CameraControls::On => true,
            CameraControls::Off => false,
        }
    }
}

impl DevCheatMode {
    pub fn is_enabled(&self) -> (r: bool)
        ensures
            r == (*self == DevCheatMode::Enabled),
    {
        matches!(self, DevCheatMode::Enabled)
    }
}

} // verus!
