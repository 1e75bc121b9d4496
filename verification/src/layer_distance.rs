//! The layer distance policy: each completed paint pass pushes the next
//! layer closer to the play camera by a constant collapse rate.

use vstd::prelude::*;
use vstd::arithmetic::div_mod::*;
use crate::fixed::WORLD_BOUND;

verus! {

/// Index of the current paint layer: the number of completed paint passes.
#[derive(Clone, Copy, Debug, PartialEq, Eq, Hash, Structural)]
pub struct LayerIndex(pub u32);

impl Default for LayerIndex {
    /// Painting starts at layer zero.
    fn default() -> (r: LayerIndex)
        ensures
            r.0 == 0,
    {
        LayerIndex(0)
    }
}

/// Tunable constants of the distance policy: the distance of layer zero,
/// and the collapse rate as a fraction `num / den` of ticks kept per layer.
#[derive(Clone, Copy, Debug, PartialEq, Eq, Hash, Structural)]
pub struct PaintLayerSettings {
    /// Projection distance of layer zero, in fixed-point ticks.
    pub zero_layer_distance: i64,
    /// Numerator of the collapse rate.
    pub collapse_rate_num: u32,
    /// Denominator of the collapse rate.
    pub collapse_rate_den: u32,
}

impl PaintLayerSettings {
    /// The distance is a length the engine can use, and the collapse rate
    /// lies strictly between zero and one.
    pub open spec fn wf(self) -> bool {
        &&& 0 <= self.zero_layer_distance <= WORLD_BOUND
        &&& 0 < self.collapse_rate_num < self.collapse_rate_den
    }
}

impl Default for PaintLayerSettings {
    /// A kilometer-deep zero layer collapsing by one percent per pass.
    fn default() -> (r: PaintLayerSettings)
        ensures
            r.zero_layer_distance == 1_000_000_000,
            r.collapse_rate_num == 99,
            r.collapse_rate_den == 100,
            r.wf(),
    {
        PaintLayerSettings {
            zero_layer_distance: 1_000_000_000,
            collapse_rate_num: 99,
            collapse_rate_den: 100,
        }
    }
}

/// The projection distance of layer `n`: the zero-layer distance scaled by
/// the collapse rate once per layer, each step rounding toward negative
/// infinity.
pub open spec fn layer_distance_spec(s: PaintLayerSettings, n: nat) -> int
    decreases n,
{
    if n == 0 {
        s.zero_layer_distance as int
    } else {
        (layer_distance_spec(s, (n - 1) as nat) * s.collapse_rate_num) / (s.collapse_rate_den as int)
    }
}

/// Every layer's distance lies between zero and the zero-layer distance,
/// and no layer is farther than the one before it.
pub proof fn lemma_layer_distance_bounds(s: PaintLayerSettings, n: nat)
    requires
        s.wf(),
    ensures
        0 <= layer_distance_spec(s, n) <= s.zero_layer_distance,
        n > 0 ==> layer_distance_spec(s, n) <= layer_distance_spec(s, (n - 1) as nat),
    decreases n,
{
    if n > 0 {
        lemma_layer_distance_bounds(s, (n - 1) as nat);
        let d = layer_distance_spec(s, (n - 1) as nat);
        let num = s.collapse_rate_num as int;
        let den = s.collapse_rate_den as int;
        assert(0 <= d * num <= den * d) by (nonlinear_arith)
            requires
                0 <= d,
                0 < num <= den,
        ;
        lemma_div_pos_is_pos(d * num, den);
        lemma_multiply_divide_le(d * num, den, d);
    }
}

/// Layers recede strictly monotonically: as long as a layer's distance has
/// not collapsed all the way to zero, the next layer is strictly nearer,
/// and layer zero sits exactly at the configured zero-layer distance.
pub proof fn lemma_layer_distance_strictly_decreases(s: PaintLayerSettings, n: nat)
    requires
        s.wf(),
        layer_distance_spec(s, n) > 0,
    ensures
        layer_distance_spec(s, n + 1) < layer_distance_spec(s, n),
        layer_distance_spec(s, 0) == s.zero_layer_distance,
{
    let d = layer_distance_spec(s, n);
    let num = s.collapse_rate_num as int;
    let den = s.collapse_rate_den as int;
    assert(d * num < den * d) by (nonlinear_arith)
        requires
            0 < d,
            0 < num < den,
    ;
    lemma_multiply_divide_lt(d * num, den, d);
}

/// Compute the projection distance for the given layer.
pub fn layer_distance(s: &PaintLayerSettings, layer: LayerIndex) -> (d: i64)
    requires
        s.wf(),
    ensures
        d == layer_distance_spec(*s, layer.0 as nat),
        0 <= d <= s.zero_layer_distance,
{
    let mut d: i64 = s.zero_layer_distance;
    let mut i: u32 = 0;
    proof {
        lemma_layer_distance_bounds(*s, 0);
    }
    while i < layer.0
        invariant
            i <= layer.0,
            s.wf(),
            d == layer_distance_spec(*s, i as nat),
            0 <= d <= s.zero_layer_distance,
        decreases layer.0 - i,
    {
        proof {
            assert(0 <= d as int * s.collapse_rate_num as int
                <= 5_000_000_000_000_000_000_000int) by (nonlinear_arith)
                requires
                    0 <= d as int <= 1_000_000_000_000,
                    0 <= (s.collapse_rate_num as int) && (s.collapse_rate_num as int)
                        < 5_000_000_000,
            ;
        }
        let prod: i128 = (d as i128) * (s.collapse_rate_num as i128);
        let next: i128 = prod / (s.collapse_rate_den as i128);
        proof {
            lemma_layer_distance_bounds(*s, (i + 1) as nat);
            lemma_fundamental_div_mod(prod as int, s.collapse_rate_den as int);
        }
        d = next as i64;
        i = i + 1;
    }
    d
}

} // verus!
