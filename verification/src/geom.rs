//! Points, directions and rays in fixed-point world space.

use vstd::prelude::*;
use vstd::arithmetic::div_mod::*;
use crate::fixed::{div_floor, lemma_div_by_multiple_neg, UNIT, VERTEX_BOUND, WORLD_BOUND};

verus! {

/// A two-component fixed-point vector (UV or viewport coordinates).
#[derive(Clone, Copy, Debug, PartialEq, Eq, Structural)]
pub struct Vec2Fx {
    pub x: i64,
    pub y: i64,
}

/// A three-component fixed-point vector (world-space points and NDC).
#[derive(Clone, Copy, Debug, PartialEq, Eq, Structural)]
pub struct Vec3Fx {
    pub x: i64,
    pub y: i64,
    pub z: i64,
}

impl Vec3Fx {
    /// Every component within `b` ticks of the origin.
    pub open spec fn within(self, b: int) -> bool {
        &&& -b <= self.x <= b
        &&& -b <= self.y <= b
        &&& -b <= self.z <= b
    }

    /// The bound on coordinates the engine supplies.
    pub open spec fn in_world(self) -> bool {
        self.within(WORLD_BOUND as int)
    }
}

/// A half-line cast from a camera: an origin and a direction, both in
/// fixed-point ticks. The direction's length is whatever the camera
/// reported; advancing by `t` scales it by `t / UNIT`.
#[derive(Clone, Copy, Debug, PartialEq, Eq, Structural)]
pub struct RayFx {
    pub origin: Vec3Fx,
    pub direction: Vec3Fx,
}

impl RayFx {
    /// Origin and direction both within the engine's coordinate bound.
    pub open spec fn in_world(self) -> bool {
        self.origin.in_world() && self.direction.in_world()
    }

    /// The point reached by advancing `t` ticks along the ray, as a
    /// mathematical value: each component is
    /// `origin + direction * t / UNIT`, rounded toward negative infinity.
    pub open spec fn point_at_spec(self, t: int) -> Vec3Fx {
        Vec3Fx {
            x: (self.origin.x + (self.direction.x * t) / (UNIT as int)) as i64,
            y: (self.origin.y + (self.direction.y * t) / (UNIT as int)) as i64,
            z: (self.origin.z + (self.direction.z * t) / (UNIT as int)) as i64,
        }
    }

    /// Advance `t` ticks along the ray.
    pub fn point_at(&self, t: i64) -> (r: Vec3Fx)
        requires
            self.in_world(),
            0 <= t <= WORLD_BOUND,
        ensures
            r == self.point_at_spec(t as int),
            r.within(VERTEX_BOUND as int),
    {
        Vec3Fx {
            x: advance_axis(self.origin.x, self.direction.x, t),
            y: advance_axis(self.origin.y, self.direction.y, t),
            z: advance_axis(self.origin.z, self.direction.z, t),
        }
    }
}

/// One component of a ray advance: `origin + direction * t / UNIT`.
fn advance_axis(origin: i64, direction: i64, t: i64) -> (r: i64)
    requires
        -WORLD_BOUND <= origin <= WORLD_BOUND,
        -WORLD_BOUND <= direction <= WORLD_BOUND,
        0 <= t <= WORLD_BOUND,
    ensures
        r == origin + (direction * t) / (UNIT as int),
        -VERTEX_BOUND <= r <= VERTEX_BOUND,
{
    proof {
        assert(-1_000_000_000_000_000_000_000_000int <= direction as int * t as int
            <= 1_000_000_000_000_000_000_000_000int) by (nonlinear_arith)
            requires
                -1_000_000_000_000 <= direction as int <= 1_000_000_000_000,
                0 <= t as int <= 1_000_000_000_000,
        ;
    }
    let prod: i128 = (direction as i128) * (t as i128);
    let q: i128 = div_floor(prod, UNIT as i128);
    proof {
        let u = UNIT as int;
        lemma_div_is_ordered(-1_000_000_000_000_000_000_000_000int, prod as int, u);
        lemma_div_is_ordered(prod as int, 1_000_000_000_000_000_000_000_000int, u);
        assert(1_000_000_000_000_000_000_000_000int == 1_000_000_000_000_000_000 * u)
            by (nonlinear_arith)
            requires
                u == 1_000_000int,
        ;
        lemma_div_by_multiple_neg(1_000_000_000_000_000_000, u);
        lemma_div_by_multiple_neg(-1_000_000_000_000_000_000, u);
    }
    origin + (q as i64)
}

} // verus!
