//! Fixed-point scalars for the painting pipeline.
//!
//! World coordinates, normalized device coordinates and UV coordinates are
//! all carried as `i64` values scaled by [`UNIT`]: the value `UNIT` stands
//! for `1.0` in world units (or one NDC unit, or a full UV extent).
//! Quotients round toward negative infinity, so every derived coordinate is
//! a single well-defined integer.

use vstd::prelude::*;
use vstd::arithmetic::div_mod::*;

verus! {

/// The fixed-point scale: this many raw ticks make one unit.
pub const UNIT: i64 = 1_000_000;

/// Bound on the coordinates the engine hands in: camera positions, ray
/// directions and projection distances stay within `WORLD_BOUND` ticks.
pub const WORLD_BOUND: i64 = 1_000_000_000_000;

/// Bound on re-projected vertex coordinates. A point a ray reaches is at
/// most `WORLD_BOUND + WORLD_BOUND * WORLD_BOUND / UNIT` ticks from the
/// origin on each axis, which stays below this bound.
pub const VERTEX_BOUND: i64 = 2_000_000_000_000_000_000;

/// Floor division of `n` by a positive divisor `d`: the result rounds
/// toward negative infinity, matching `/` on `int`.
pub fn div_floor(n: i128, d: i128) -> (r: i128)
    requires
        0 < d,
        i128::MIN < n,
    ensures
        r == n as int / d as int,
{
    if n >= 0 {
        let q: i128 = n / d;
        proof {
            lemma_fundamental_div_mod(n as int, d as int);
        }
        q
    } else {
        let m: i128 = -n;
        let q0: i128 = (m - 1) / d;
        proof {
            lemma_div_nonincreasing(m as int - 1, d as int);
            lemma_div_pos_is_pos(m as int - 1, d as int);
            lemma_fundamental_div_mod(m as int - 1, d as int);
            lemma_mod_division_less_than_divisor(m as int - 1, d as int);
            let rem0 = (m - 1) as int % d as int;
            assert(n as int == (-1 - q0) * d + (d - 1 - rem0)) by (nonlinear_arith)
                requires
                    m == -n,
                    m as int - 1 == d as int * (q0 as int) + rem0,
            ;
            lemma_fundamental_div_mod_converse_div(n as int, d as int, -1 - q0, d - 1 - rem0);
        }
        -1 - q0
    }
}

/// The floor of the mean of three coordinates.
pub fn avg3(a: i64, b: i64, c: i64) -> (r: i64)
    ensures
        r == (a + b + c) / 3,
        min3(a as int, b as int, c as int) <= r <= max3(a as int, b as int, c as int),
{
    let s: i128 = a as i128 + b as i128 + c as i128;
    let q: i128 = div_floor(s, 3);
    proof {
        let lo = min3(a as int, b as int, c as int);
        let hi = max3(a as int, b as int, c as int);
        lemma_div_is_ordered(3 * lo, s as int, 3);
        lemma_div_is_ordered(s as int, 3 * hi, 3);
        lemma_div_by_multiple_neg(lo, 3);
        lemma_div_by_multiple_neg(hi, 3);
    }
    q as i64
}

/// The smaller of three integers.
pub open spec fn min3(a: int, b: int, c: int) -> int {
    if a <= b && a <= c {
        a
    } else if b <= c {
        b
    } else {
        c
    }
}

/// The larger of three integers.
pub open spec fn max3(a: int, b: int, c: int) -> int {
    if a >= b && a >= c {
        a
    } else if b >= c {
        b
    } else {
        c
    }
}

/// `(b * d) / d == b` also for negative `b`.
pub proof fn lemma_div_by_multiple_neg(b: int, d: int)
    requires
        0 < d,
    ensures
        (b * d) / d == b,
{
    if b >= 0 {
        lemma_div_by_multiple(b, d);
    } else {
        assert(b * d == (b * d) + 0);
        lemma_fundamental_div_mod_converse_div(b * d, d, b, 0);
    }
}

} // verus!
