//! The game's states and the moves between them.

use vstd::prelude::*;

verus! {

/// Where the game stands.
#[derive(Clone, Copy, Debug, PartialEq, Eq, Structural)]
pub enum GameState {
    MainMenu,
    Playing,
    Paused,
    GameOver,
}

/// The state after a frame. `fire` and `cancel` are this frame's fresh
/// triggers; `died` says whether the player died in it, which only a frame
/// of play can bring about.
///
/// The menu starts a game on fire; play pauses on cancel and ends when the
/// player dies, which comes first; a pause ends on cancel; a lost game goes
/// back to the menu on cancel. Cancel in the menu leaves the program, so
/// the state stays.
pub open spec fn next_state(state: GameState, fire: bool, cancel: bool, died: bool) -> GameState {
    match state {
        GameState::MainMenu => if !cancel && fire {
            GameState::Playing
        } else {
            GameState::MainMenu
        },
        GameState::Playing => if died {
            GameState::GameOver
        } else if cancel {
            GameState::Paused
        } else {
            GameState::Playing
        },
        GameState::Paused => if cancel {
            GameState::Playing
        } else {
            GameState::Paused
        },
        GameState::GameOver => if cancel {
            GameState::MainMenu
        } else {
            GameState::GameOver
        },
    }
}

/// Whether the frame asks the program to end: cancel in the menu.
pub open spec fn leaves(state: GameState, cancel: bool) -> bool {
    state == GameState::MainMenu && cancel
}

/// Whether the frame starts a new game: fire in the menu, without cancel.
pub open spec fn starts(state: GameState, fire: bool, cancel: bool) -> bool {
    state == GameState::MainMenu && !cancel && fire
}

/// The state after a frame.
pub fn transition(state: GameState, fire: bool, cancel: bool, died: bool) -> (r: GameState)
    ensures
        r == next_state(state, fire, cancel, died),
{
    match state {
        GameState::MainMenu => if !cancel && fire {
            GameState::Playing
        } else {
            GameState::MainMenu
        },
        GameState::Playing => if died {
            GameState::GameOver
        } else if cancel {
            GameState::Paused
        } else {
            GameState::Playing
        },
        GameState::Paused => if cancel {
            GameState::Playing
        } else {
            GameState::Paused
        },
        GameState::GameOver => if cancel {
            GameState::MainMenu
        } else {
            GameState::GameOver
        },
    }
}

/// A game is lost only from play, and only by the player's death.
pub proof fn game_over_only_by_death(state: GameState, fire: bool, cancel: bool, died: bool)
    requires
        state != GameState::GameOver,
        next_state(state, fire, cancel, died) == GameState::GameOver,
    ensures
        state == GameState::Playing,
        died,
{
}

/// Without a trigger and without a death, the state stays.
pub proof fn idle_frame_keeps_state(state: GameState)
    ensures
        next_state(state, false, false, false) == state,
{
}

/// A pause and its end bring play back.
pub proof fn pause_is_undone_by_cancel(fire: bool)
    ensures
        next_state(next_state(GameState::Playing, fire, true, false), fire, true, false)
            == GameState::Playing,
{
}

} // verus!
