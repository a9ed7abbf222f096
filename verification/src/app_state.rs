//! The phases of the application and of its screens.

use vstd::prelude::*;

verus! {

/// The phase the application is in.
#[derive(Debug, PartialEq, Eq, Clone, Copy, Hash, Structural)]
pub enum AppState {
    /// The application is loading its assets. This is where it starts.
    AssetsLoading,
    /// The main menu is shown.
    MainMenu,
    /// A session is running: the simulation core is driven every tick.
    InGame,
    /// The session has ended; the core is no longer driven.
    GameOver,
}

/// What the main menu shows.
#[derive(Clone, Copy, PartialEq, Eq, Hash, Debug, Structural)]
pub enum MainMenuSubState {
    /// The menu itself.
    Menu,
    Settings,
    Credits,
}

/// Whether a running session is paused.
#[derive(Clone, Copy, PartialEq, Eq, Hash, Debug, Structural)]
pub enum InGameSubState {
    /// The session runs.
    Running,
    Paused,
}

/// Marks an entity that belongs to the phase it was made in; such entities
/// are removed, with all that hangs on them, when the phase is left.
#[derive(Clone, Copy, Debug, PartialEq, Eq)]
pub struct StateDespawnMarker;

impl Default for AppState {
    fn default() -> (s: AppState)
        ensures
            s == AppState::AssetsLoading,
    {
        AppState::AssetsLoading
    }
}

impl Default for MainMenuSubState {
    fn default() -> (s: MainMenuSubState)
        ensures
            s == MainMenuSubState::Menu,
    {
        MainMenuSubState::Menu
    }
}

impl Default for InGameSubState {
    fn default() -> (s: InGameSubState)
        ensures
            s == InGameSubState::Running,
    {
        InGameSubState::Running
    }
}

} // verus!
