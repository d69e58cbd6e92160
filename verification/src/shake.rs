//! Camera-shake feedback state.  The renderer reads it to jolt the view
//! on a collision; only the bookkeeping lives here.

use vstd::prelude::*;

verus! {

/// How long and how hard the camera shakes, and whether a shake is
/// running.  Durations are in milliseconds, the intensity in world units
/// of maximum displacement.
#[derive(Debug, Clone, Copy, PartialEq, Eq, Structural)]
pub struct ScreenShake {
    pub duration_ms: i64,
    pub intensity: i64,
    pub active: bool,
}

impl Default for ScreenShake {
    /// Half a second at intensity 10, not running.
    fn default() -> (r: Self)
        ensures
            r == (ScreenShake { duration_ms: 500, intensity: 10, active: false }),
    {
        ScreenShake { duration_ms: 500, intensity: 10, active: false }
    }
}

impl ScreenShake {
    /// Starts a shake of the given strength and length, replacing any
    /// running one.
    pub fn trigger(&mut self, intensity: i64, duration_ms: i64)
        ensures
            *final(self) == (ScreenShake { duration_ms, intensity, active: true }),
    {
        self.intensity = intensity;
        self.duration_ms = duration_ms;
        self.active = true;
    }
}

} // verus!
