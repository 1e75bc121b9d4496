//! Spherical-coordinate camera control: the paint camera looks along a
//! direction given by a yaw (`theta`) and a clamped pitch (`phi`), both
//! in fixed-point radians. Rotating applies the input's deflection scaled
//! by a sensitivity, clamps the pitch to its bounds and wraps the yaw to
//! one full turn. Turning the resulting angles into a look-at transform
//! is trigonometry the host engine does.

use vstd::prelude::*;
use vstd::arithmetic::div_mod::*;
use crate::fixed::{div_floor, UNIT};
use crate::geom::Vec2Fx;

verus! {

/// One full turn (two pi) in fixed-point ticks.
pub const TAU_TICKS: i64 = 6_283_185;

/// Tunables of the paint-camera controls.
#[derive(Clone, Copy, Debug, PartialEq, Eq, Structural)]
pub struct PaintSkiesSettings {
    /// Radians ticks of rotation per full input deflection.
    pub rotate_sensitivity: i64,
}

impl PaintSkiesSettings {
    /// The sensitivity is at most one radian per frame.
    pub open spec fn wf(self) -> bool {
        0 <= self.rotate_sensitivity <= UNIT
    }
}

impl Default for PaintSkiesSettings {
    /// A twentieth of a radian per fully deflected frame.
    fn default() -> (r: PaintSkiesSettings)
        ensures
            r.rotate_sensitivity == 50_000,
            r.wf(),
    {
        PaintSkiesSettings { rotate_sensitivity: 50_000 }
    }
}

/// The pitch range a camera may be steered through.
#[derive(Clone, Copy, Debug, PartialEq, Eq, Structural)]
pub struct SphericalCoordsBounds {
    /// Greatest allowed pitch.
    pub max_phi: i64,
    /// Least allowed pitch.
    pub min_phi: i64,
}

impl SphericalCoordsBounds {
    /// The range is non-empty and within a turn of level.
    pub open spec fn wf(self) -> bool {
        -TAU_TICKS <= self.min_phi <= self.max_phi <= TAU_TICKS
    }
}

impl Default for SphericalCoordsBounds {
    /// A camera that may not pitch at all.
    fn default() -> (r: SphericalCoordsBounds)
        ensures
            r.max_phi == 0,
            r.min_phi == 0,
            r.wf(),
    {
        SphericalCoordsBounds { max_phi: 0, min_phi: 0 }
    }
}

/// Where a camera looks, as yaw and pitch in fixed-point radians.
#[derive(Clone, Copy, Debug, PartialEq, Eq, Structural)]
pub struct LookAtSphericalCoords {
    /// Yaw, within one turn either way.
    pub theta: i64,
    /// Pitch.
    pub phi: i64,
}

impl LookAtSphericalCoords {
    /// Both angles stay within one turn of level.
    pub open spec fn wf(self) -> bool {
        &&& -TAU_TICKS < self.theta < TAU_TICKS
        &&& -TAU_TICKS <= self.phi <= TAU_TICKS
    }
}

impl Default for LookAtSphericalCoords {
    /// Looking straight ahead.
    fn default() -> (r: LookAtSphericalCoords)
        ensures
            r.theta == 0,
            r.phi == 0,
            r.wf(),
    {
        LookAtSphericalCoords { theta: 0, phi: 0 }
    }
}

/// `v` forced into `[lo, hi]`.
pub open spec fn clamp_spec(v: int, lo: int, hi: int) -> int {
    if v < lo {
        lo
    } else if v > hi {
        hi
    } else {
        v
    }
}

/// Remainder that keeps the dividend's sign, as the engine's angle
/// wrap does: `a` reduced into `(-m, m)` by whole multiples of `m`.
pub open spec fn wrap_spec(a: int, m: int) -> int {
    if a >= 0 {
        a % m
    } else {
        -((-a) % m)
    }
}

/// Apply one frame of rotation input to a camera's spherical coordinates:
/// each axis' deflection is scaled by the sensitivity; the pitch is
/// clamped to its bounds and the yaw wraps at a full turn.
pub fn rotate_spherical_coords(
    coords: &LookAtSphericalCoords,
    rotate_by: &Vec2Fx,
    settings: &PaintSkiesSettings,
    bounds: &SphericalCoordsBounds,
) -> (r: LookAtSphericalCoords)
    requires
        coords.wf(),
        settings.wf(),
        bounds.wf(),
        -UNIT <= rotate_by.x <= UNIT,
        -UNIT <= rotate_by.y <= UNIT,
    ensures
        r.phi == clamp_spec(
            coords.phi + (rotate_by.y * settings.rotate_sensitivity) / (UNIT as int),
            bounds.min_phi as int,
            bounds.max_phi as int,
        ),
        r.theta == wrap_spec(
            coords.theta - (rotate_by.x * settings.rotate_sensitivity) / (UNIT as int),
            TAU_TICKS as int,
        ),
        r.wf(),
{
    let delta_x = scaled_deflection(rotate_by.x, settings.rotate_sensitivity);
    let delta_y = scaled_deflection(rotate_by.y, settings.rotate_sensitivity);

    let raw_phi: i64 = coords.phi + delta_y;
    let phi: i64 = if raw_phi < bounds.min_phi {
        bounds.min_phi
    } else if raw_phi > bounds.max_phi {
        bounds.max_phi
    } else {
        raw_phi
    };

    let raw_theta: i64 = coords.theta - delta_x;
    let theta: i64 = wrap_turn(raw_theta);

    LookAtSphericalCoords { theta, phi }
}

/// An input deflection scaled by the sensitivity, in radian ticks.
fn scaled_deflection(deflection: i64, sensitivity: i64) -> (r: i64)
    requires
        -UNIT <= deflection <= UNIT,
        0 <= sensitivity <= UNIT,
    ensures
        r == (deflection * sensitivity) / (UNIT as int),
        -UNIT <= r <= UNIT,
{
    proof {
        assert(-1_000_000_000_000int <= (deflection as int) * (sensitivity as int)
            <= 1_000_000_000_000int) by (nonlinear_arith)
            requires
                -1_000_000 <= (deflection as int) && (deflection as int) <= 1_000_000,
                0 <= (sensitivity as int) && (sensitivity as int) <= 1_000_000,
        ;
    }
    let prod: i128 = (deflection as i128) * (sensitivity as i128);
    let q: i128 = div_floor(prod, UNIT as i128);
    proof {
        lemma_div_is_ordered(-1_000_000_000_000int, prod as int, UNIT as int);
        lemma_div_is_ordered(prod as int, 1_000_000_000_000int, UNIT as int);
        crate::fixed::lemma_div_by_multiple_neg(1_000_000, UNIT as int);
        crate::fixed::lemma_div_by_multiple_neg(-1_000_000, UNIT as int);
        assert(1_000_000_000_000int == 1_000_000 * (UNIT as int)) by (nonlinear_arith);
    }
    q as i64
}

/// Wrap an angle within two turns into `(-TAU_TICKS, TAU_TICKS)`,
/// keeping its sign.
fn wrap_turn(a: i64) -> (r: i64)
    requires
        -2 * TAU_TICKS < a < 2 * TAU_TICKS,
    ensures
        r == wrap_spec(a as int, TAU_TICKS as int),
        -TAU_TICKS < r < TAU_TICKS,
{
    proof {
        lemma_mod_bound(a as int, TAU_TICKS as int);
        lemma_mod_bound(-(a as int), TAU_TICKS as int);
    }
    if a >= 0 {
        if a >= TAU_TICKS {
            proof {
                lemma_mod_sub_multiples_vanish(a as int, TAU_TICKS as int);
                lemma_small_mod((a - TAU_TICKS) as nat, TAU_TICKS as nat);
            }
            a - TAU_TICKS
        } else {
            proof {
                lemma_small_mod(a as nat, TAU_TICKS as nat);
            }
            a
        }
    } else {
        let m = -a;
        if m >= TAU_TICKS {
            proof {
                lemma_mod_sub_multiples_vanish(m as int, TAU_TICKS as int);
                lemma_small_mod((m - TAU_TICKS) as nat, TAU_TICKS as nat);
            }
            -(m - TAU_TICKS)
        } else {
            proof {
                lemma_small_mod(m as nat, TAU_TICKS as nat);
            }
            a
        }
    }
}

} // verus!
