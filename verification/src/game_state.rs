//! The round-level state machine and its input-driven transitions.

use vstd::prelude::*;

verus! {

/// The states a session moves through:
/// `MainMenu -> GameModeSelection -> PreGame -> Playing <-> Paused ->
/// GameOver -> (MainMenu | PreGame)`.
#[derive(Debug, Clone, Copy, PartialEq, Eq, Structural, Hash)]
pub enum GameState {
    MainMenu,
    GameModeSelection,
    PreGame,
    Playing,
    Paused,
    GameOver,
}

impl Default for GameState {
    /// A session begins at the main menu.
    fn default() -> (r: Self)
        ensures
            r == GameState::MainMenu,
    {
        GameState::MainMenu
    }
}

/// Where the two edge-triggered inputs lead from each state.  `confirm` is
/// the jump action, `cancel` the menu action.  Leaving
/// `GameModeSelection` happens by choosing a mode, not by a key, so
/// `confirm` is ignored there.
pub open spec fn spec_transition(
    current: GameState,
    confirm: bool,
    cancel: bool,
) -> GameState {
    match current {
        GameState::MainMenu => if confirm {
            GameState::GameModeSelection
        } else {
            GameState::MainMenu
        },
        GameState::GameModeSelection => if cancel {
            GameState::MainMenu
        } else {
            GameState::GameModeSelection
        },
        GameState::PreGame => if confirm {
            GameState::Playing
        } else {
            GameState::PreGame
        },
        GameState::Playing => if cancel {
            GameState::Paused
        } else {
            GameState::Playing
        },
        GameState::Paused => if cancel {
            GameState::Playing
        } else {
            GameState::Paused
        },
        GameState::GameOver => if confirm {
            GameState::PreGame
        } else if cancel {
            GameState::MainMenu
        } else {
            GameState::GameOver
        },
    }
}

/// The state reached from `current` when the given edge-triggered inputs
/// fired this tick.
pub fn transition_to_game_state(
    current: GameState,
    confirm_pressed: bool,
    cancel_pressed: bool,
) -> (next: GameState)
    ensures
        next == spec_transition(current, confirm_pressed, cancel_pressed),
{
    match current {
        GameState::MainMenu => if confirm_pressed {
            GameState::GameModeSelection
        } else {
            GameState::MainMenu
        },
        GameState::GameModeSelection => if cancel_pressed {
            GameState::MainMenu
        } else {
            GameState::GameModeSelection
        },
        GameState::PreGame => if confirm_pressed {
            GameState::Playing
        } else {
            GameState::PreGame
        },
        GameState::Playing => if cancel_pressed {
            GameState::Paused
        } else {
            GameState::Playing
        },
        GameState::Paused => if cancel_pressed {
            GameState::Playing
        } else {
            GameState::Paused
        },
        GameState::GameOver => if confirm_pressed {
            GameState::PreGame
        } else if cancel_pressed {
            GameState::MainMenu
        } else {
            GameState::GameOver
        },
    }
}

} // verus!
