//! Verified simulation core of a side-scrolling arcade game.
//!
//! The library owns the deterministic per-tick gameplay logic: difficulty
//! parameters, obstacle spawning and scrolling, actor physics, collision and
//! scoring, timed power-up effects, the game-mode state machine, high-score
//! bookkeeping and play statistics.  Rendering, audio and file persistence
//! live outside the library and talk to it through plain values.
//!
//! All lengths are measured in integer subunits (`SUBUNIT` per world unit)
//! and all durations in whole milliseconds, so every step of the simulation
//! is exact integer arithmetic.

pub mod bird;
mod clock;
pub mod difficulty;
pub mod events;
pub mod game_over;
pub mod game_state;
pub mod geom;
pub mod high_scores;
pub mod modes;
pub mod pipes;
pub mod powerups;
mod rng;
pub mod score;
pub mod shake;
pub mod sim;
pub mod stats;
pub mod timer;
