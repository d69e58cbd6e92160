//! The notifications a simulation tick emits.  The tick returns them as a
//! batch; collaborators outside the simulation (audio, statistics, UI)
//! drain the batch after the tick completes.

use vstd::prelude::*;

verus! {

use crate::powerups::PowerUpType;

/// One discrete notification.
#[derive(Debug, Clone, Copy, PartialEq, Eq, Structural)]
pub enum GameEvent {
    /// The actor received a jump impulse.
    Jump,
    /// An obstacle pair was passed and the score increased.
    Score,
    /// The actor hit an obstacle (or, in Zen mode, brushed close to one).
    Collision,
    /// The round ended.
    GameOver,
    /// A power-up of the given kind was collected.
    PowerUpCollected(PowerUpType),
}

} // verus!
