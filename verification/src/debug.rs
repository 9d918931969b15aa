//! Debug switches shared by the shells (environment variables natively,
//! query parameters on the web). None of them is reachable from normal play.

use vstd::prelude::*;

verus! {

#[derive(Clone, Copy, Debug, PartialEq, Eq, Structural)]
pub struct DebugOptions {
    /// The game plays itself.
    pub autoplay: bool,
    /// Show every shape enlarged instead of the game.
    pub gallery: bool,
    /// Start with a tower of this many pieces already stacked.
    pub stress: usize,
    /// Shift the (frozen) stress tower sideways by this many units.
    pub stress_x: i32,
    /// Give the stress tower live physics bodies instead of frozen ones.
    pub stress_physics: bool,
    /// Print physics/draw timings once a second.
    pub stats: bool,
}

impl Default for DebugOptions {
    fn default() -> (d: DebugOptions)
        ensures
            d == (DebugOptions {
                autoplay: false,
                gallery: false,
                stress: 0,
                stress_x: 0,
                stress_physics: false,
                stats: false,
            }),
    {
        DebugOptions {
            autoplay: false,
            gallery: false,
            stress: 0,
            stress_x: 0,
            stress_physics: false,
            stats: false,
        }
    }
}

} // verus!
