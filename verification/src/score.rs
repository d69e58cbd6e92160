//! The round score: a monotonically increasing counter, reset at round
//! start.

use vstd::prelude::*;

verus! {

/// The current round's score.
#[derive(Debug, Clone, Copy, PartialEq, Eq, Structural)]
pub struct GameScore(pub u32);

impl Default for GameScore {
    /// A round starts at zero.
    fn default() -> (r: Self)
        ensures
            r == (GameScore(0)),
    {
        GameScore(0)
    }
}

/// The score after awarding `points`: the sum, saturating at the counter's
/// ceiling.
pub open spec fn spec_award(score: u32, points: u32) -> u32 {
    if score + points <= u32::MAX {
        (score + points) as u32
    } else {
        u32::MAX
    }
}

impl GameScore {
    /// Awards `points` to the round, saturating at the counter's ceiling.
    pub fn award(&mut self, points: u32)
        ensures
            final(self).0 == spec_award(old(self).0, points),
    {
        if self.0 <= u32::MAX - points {
            self.0 = self.0 + points;
        } else {
            self.0 = u32::MAX;
        }
    }
}

} // verus!
