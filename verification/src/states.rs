//! Session state markers: which screen the application is on, which game mode
//! is running, and the stored volume setting.
use vstd::prelude::*;

verus! {

/// Which screen of the application is active.
#[derive(Clone, PartialEq, Eq, Structural, Hash, Debug)]
pub enum AppState {
    Menu,
    InGame,
    LoadingScreen,
    BoardSetup,
}

impl Default for AppState {
    /// A session starts in the game screen.
    fn default() -> (r: Self)
        ensures
            r == AppState::InGame,
    {
        AppState::InGame
    }
}

/// Which game mode is running, if any.
#[derive(Clone, PartialEq, Eq, Structural, Hash, Debug)]
pub enum GameModeState {
    NotInGame,
    Singleplayer,
    Multiplayer,
}

impl Default for GameModeState {
    /// Outside a game until one is started.
    fn default() -> (r: Self)
        ensures
            r == GameModeState::NotInGame,
    {
        GameModeState::NotInGame
    }
}

/// The stored volume setting.
#[derive(Clone, Copy, PartialEq, Eq, Structural, Debug)]
pub struct GameVolue(pub u32);

} // verus!
