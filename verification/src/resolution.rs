//! The fixed pixel resolution of the game's viewport, and the choice
//! between letterboxing and pillarboxing it inside the window.

use vstd::prelude::*;

verus! {

/// The pixel resolution the game renders at.
#[derive(Clone, Copy, Debug, PartialEq, Eq, Structural)]
pub struct ClearSkiesResolution {
    pub x: u32,
    pub y: u32,
}

impl Default for ClearSkiesResolution {
    /// The game renders at 480 by 360.
    fn default() -> (r: ClearSkiesResolution)
        ensures
            r.x == 480,
            r.y == 360,
    {
        ClearSkiesResolution { x: 480, y: 360 }
    }
}

/// How the viewport fills the window while keeping its aspect ratio.
#[derive(Clone, Copy, Debug, PartialEq, Eq, Structural)]
pub enum ViewportBoxing {
    /// The window is wider than the target: full height, bars at the
    /// sides.
    Pillarbox,
    /// The window is at most as wide as the target: full width, bars
    /// above and below.
    Letterbox,
}

/// Decide boxing from the window size: pillarbox exactly when the
/// window's aspect ratio exceeds the target's, compared exactly by cross
/// multiplication.
pub fn letterbox_or_pillarbox_viewport(
    window_x: u32,
    window_y: u32,
    resolution: &ClearSkiesResolution,
) -> (r: ViewportBoxing)
    ensures
        r is Pillarbox <==> window_x * resolution.y > resolution.x * window_y,
{
    proof {
        assert((window_x as int) * (resolution.y as int) < 18446744073709551616int
            && (resolution.x as int) * (window_y as int) < 18446744073709551616int)
            by (nonlinear_arith)
            requires
                0 <= (window_x as int) && (window_x as int) < 4294967296,
                0 <= (window_y as int) && (window_y as int) < 4294967296,
                0 <= (resolution.x as int) && (resolution.x as int) < 4294967296,
                0 <= (resolution.y as int) && (resolution.y as int) < 4294967296,
        ;
    }
    if (window_x as u64) * (resolution.y as u64) > (resolution.x as u64) * (window_y as u64) {
        ViewportBoxing::Pillarbox
    } else {
        ViewportBoxing::Letterbox
    }
}

} // verus!
