//! The game-over screen's reveal delay: the summary is held back for half
//! a second after the round ends, then shown exactly once.

use vstd::prelude::*;

verus! {

use crate::geom::DT_MAX;

/// When the reveal delay elapses, in milliseconds after game over.
pub const GAME_OVER_REVEAL_MS: i64 = 500;

/// Progress toward revealing the game-over screen.
#[derive(Debug, Clone, Copy, PartialEq, Eq, Structural)]
pub struct GameOverUIState {
    pub timer_ms: i64,
    pub is_visible: bool,
}

impl GameOverUIState {
    pub open spec fn wf(self) -> bool {
        0 <= self.timer_ms <= GAME_OVER_REVEAL_MS + DT_MAX
    }
}

impl Default for GameOverUIState {
    /// Hidden, with no delay elapsed.
    fn default() -> (r: Self)
        ensures
            r == (GameOverUIState { timer_ms: 0, is_visible: false }),
            r.wf(),
    {
        GameOverUIState { timer_ms: 0, is_visible: false }
    }
}

/// Hides the screen again and discards the elapsed delay (used on leaving
/// the game-over state).
pub fn reset_game_over_ui_timer(ui_state: &mut GameOverUIState)
    ensures
        *final(ui_state) == (GameOverUIState { timer_ms: 0, is_visible: false }),
        final(ui_state).wf(),
{
    ui_state.timer_ms = 0;
    ui_state.is_visible = false;
}

/// One tick of the reveal delay.  Returns whether the screen becomes
/// visible this tick: exactly when the accumulated delay first reaches
/// the threshold.  Once visible, nothing changes any more.
pub fn show_game_over_ui(ui_state: &mut GameOverUIState, dt: i64) -> (revealed: bool)
    requires
        old(ui_state).wf(),
        0 <= dt <= DT_MAX,
    ensures
        old(ui_state).is_visible ==> *final(ui_state) == *old(ui_state) && !revealed,
        !old(ui_state).is_visible ==> ({
            &&& revealed == (old(ui_state).timer_ms + dt >= GAME_OVER_REVEAL_MS)
            &&& final(ui_state).is_visible == revealed
            &&& (!revealed ==> final(ui_state).timer_ms == old(ui_state).timer_ms + dt)
        }),
        final(ui_state).wf(),
{
    if ui_state.is_visible {
        return false;
    }
    if ui_state.timer_ms + dt >= GAME_OVER_REVEAL_MS {
        ui_state.timer_ms = GAME_OVER_REVEAL_MS;
        ui_state.is_visible = true;
        true
    } else {
        ui_state.timer_ms = ui_state.timer_ms + dt;
        false
    }
}

} // verus!
