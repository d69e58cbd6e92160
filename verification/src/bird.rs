//! Actor physics: gravity-integrated vertical motion, the input-triggered
//! jump impulse, and out-of-bounds detection.

use vstd::prelude::*;

verus! {

use crate::geom::{DT_MAX, POS_LIMIT, SUBUNIT};

/// Velocity a jump impulse installs, in subunits per millisecond.
pub const JUMP_VELOCITY: i64 = 5_000;

/// Velocity lost to gravity per millisecond, in subunits per millisecond.
pub const GRAVITY_PER_MS: i64 = 15;

/// Clamp on downward speed, in subunits per millisecond.  Far beyond any
/// speed reachable in play; it keeps the fall of an endless round inside
/// `i64`.
pub const VEL_LIMIT: i64 = 1_000_000_000_000;

/// Side of the actor's square collider, in subunits (40 world units).
pub const BIRD_SIZE_SU: i64 = 40 * SUBUNIT;

/// Horizontal position of the actor; the world scrolls, the actor does not.
pub const BIRD_X_SU: i64 = 0;

/// Top of the play area, in subunits (the window is 600 world units tall,
/// centered on the origin).
pub const PLAY_TOP_SU: i64 = 300 * SUBUNIT;

/// Bottom of the play area, in subunits.
pub const PLAY_BOTTOM_SU: i64 = -300 * SUBUNIT;

/// The player-controlled actor: vertical position (subunits) and vertical
/// velocity (subunits per millisecond).
#[derive(Debug, Clone, Copy, PartialEq, Eq, Structural)]
pub struct Bird {
    pub y: i64,
    pub velocity: i64,
}

/// Velocity after one tick of gravity: it drops by `GRAVITY_PER_MS * dt`,
/// saturating at the workspace clamp.
pub open spec fn spec_gravity_velocity(v: int, dt: int) -> int {
    if v - GRAVITY_PER_MS * dt >= -VEL_LIMIT {
        v - GRAVITY_PER_MS * dt
    } else {
        -VEL_LIMIT as int
    }
}

/// Position after one tick: it moves by `velocity * dt`, saturating at the
/// workspace bounds.
pub open spec fn spec_moved_y(y: int, v: int, dt: int) -> int {
    let moved = y + v * dt;
    if moved > POS_LIMIT {
        POS_LIMIT as int
    } else if moved < -POS_LIMIT {
        -POS_LIMIT as int
    } else {
        moved
    }
}

/// The actor leaves the play area: its collider crosses the top or bottom
/// edge, accounting for the half-extent.
pub open spec fn spec_out_of_bounds(y: int) -> bool {
    y + BIRD_SIZE_SU / 2 > PLAY_TOP_SU || y - BIRD_SIZE_SU / 2 < PLAY_BOTTOM_SU
}

impl Bird {
    /// The actor's state is inside the arithmetic workspace.
    pub open spec fn wf(self) -> bool {
        &&& -POS_LIMIT <= self.y <= POS_LIMIT
        &&& -VEL_LIMIT <= self.velocity <= JUMP_VELOCITY
    }

    /// A fresh actor at the origin, at rest.
    pub fn new() -> (r: Bird)
        ensures
            r == (Bird { y: 0, velocity: 0 }),
            r.wf(),
    {
        Bird { y: 0, velocity: 0 }
    }

    /// The jump impulse: velocity becomes exactly `JUMP_VELOCITY`, whatever
    /// its prior sign or magnitude; it overwrites, it does not add.
    pub fn jump(&mut self)
        ensures
            *final(self) == (Bird { velocity: JUMP_VELOCITY, ..*old(self) }),
    {
        self.velocity = JUMP_VELOCITY;
    }

    /// One tick of physics: gravity lowers the velocity by exactly
    /// `GRAVITY_PER_MS * dt` (down to the workspace clamp), then the
    /// position advances by the new velocity times `dt`.
    pub fn movement(&mut self, dt: i64)
        requires
            old(self).wf(),
            0 <= dt <= DT_MAX,
        ensures
            final(self).velocity == spec_gravity_velocity(old(self).velocity as int, dt as int),
            final(self).y == spec_moved_y(
                old(self).y as int,
                final(self).velocity as int,
                dt as int,
            ),
            final(self).wf(),
    {
        let fall = GRAVITY_PER_MS * dt;
        self.velocity = if self.velocity - fall >= -VEL_LIMIT {
            self.velocity - fall
        } else {
            -VEL_LIMIT
        };
        proof {
            assert(-(2 * VEL_LIMIT as int * DT_MAX as int)
                <= (self.velocity as int) * (dt as int)
                <= 2 * VEL_LIMIT as int * DT_MAX as int) by (nonlinear_arith)
                requires
                    -VEL_LIMIT <= self.velocity <= JUMP_VELOCITY,
                    0 <= dt <= DT_MAX;
        }
        let moved = self.y + self.velocity * dt;
        self.y = if moved > POS_LIMIT {
            POS_LIMIT
        } else if moved < -POS_LIMIT {
            -POS_LIMIT
        } else {
            moved
        };
    }

    /// Whether the actor has left the play area.
    pub fn out_of_bounds(&self) -> (r: bool)
        requires
            self.wf(),
        ensures
            r == spec_out_of_bounds(self.y as int),
    {
        self.y + BIRD_SIZE_SU / 2 > PLAY_TOP_SU || self.y - BIRD_SIZE_SU / 2 < PLAY_BOTTOM_SU
    }
}

/// The tilt a renderer draws the actor at, in millidegrees: the velocity
/// over the ratio of 7.5, clamped to ±90 degrees.  Purely derived from
/// the velocity; no physics reads it.
pub open spec fn spec_rotation_millideg(v: int) -> int {
    let magnitude = if v >= 0 {
        v * 2 / 15
    } else {
        -((-v) * 2 / 15)
    };
    if magnitude > 90_000 {
        90_000
    } else if magnitude < -90_000 {
        -90_000
    } else {
        magnitude
    }
}

impl Bird {
    /// The derived visual tilt, in millidegrees.
    pub fn rotation_millideg(&self) -> (r: i64)
        requires
            self.wf(),
        ensures
            r == spec_rotation_millideg(self.velocity as int),
            -90_000 <= r <= 90_000,
    {
        let magnitude = if self.velocity >= 0 {
            self.velocity * 2 / 15
        } else {
            -((-self.velocity) * 2 / 15)
        };
        if magnitude > 90_000 {
            90_000
        } else if magnitude < -90_000 {
            -90_000
        } else {
            magnitude
        }
    }
}

/// Absent a jump impulse, one tick of gravity strictly lowers the velocity
/// whenever the tick advances time at all and the workspace clamp is not
/// yet reached.
pub proof fn lemma_velocity_strictly_decreases(v: int, dt: int)
    requires
        0 < dt,
        -VEL_LIMIT < v,
    ensures
        spec_gravity_velocity(v, dt) < v,
{
}

} // verus!
