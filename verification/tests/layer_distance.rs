//! The layer distance policy: exponential collapse in fixed point.

use clear_skies::fixed::UNIT;
use clear_skies::layer_distance::{layer_distance, LayerIndex, PaintLayerSettings};

#[test]
fn default_settings() {
    let s = PaintLayerSettings::default();
    assert_eq!(s.zero_layer_distance, 1000 * UNIT);
    assert_eq!(s.collapse_rate_num, 99);
    assert_eq!(s.collapse_rate_den, 100);
}

#[test]
fn layer_zero_uses_the_full_distance() {
    // 1000 world units at a collapse rate of 0.99: layer 0 projects at
    // exactly the zero-layer distance.
    let s = PaintLayerSettings::default();
    assert_eq!(layer_distance(&s, LayerIndex(0)), 1_000_000_000);
}

#[test]
fn layer_ten_distance() {
    // 1000 * 0.99^10 is about 904.38 world units; in ticks the exact
    // fixed-point value is 904_382_072.
    let s = PaintLayerSettings::default();
    assert_eq!(layer_distance(&s, LayerIndex(10)), 904_382_072);
}

#[test]
fn early_layers_collapse_by_one_percent() {
    let s = PaintLayerSettings::default();
    assert_eq!(layer_distance(&s, LayerIndex(1)), 990_000_000);
    assert_eq!(layer_distance(&s, LayerIndex(2)), 980_100_000);
    assert_eq!(layer_distance(&s, LayerIndex(3)), 970_299_000);
}

#[test]
fn distances_strictly_decrease_while_positive() {
    let s = PaintLayerSettings::default();
    let mut previous = layer_distance(&s, LayerIndex(0));
    for layer in 1..40u32 {
        let d = layer_distance(&s, LayerIndex(layer));
        assert!(d < previous);
        previous = d;
    }
}

#[test]
fn a_fast_collapse_reaches_zero_and_stays() {
    // One tick halved per layer: the distance underflows to zero and
    // strict decrease no longer applies from there on.
    let s = PaintLayerSettings {
        zero_layer_distance: 1,
        collapse_rate_num: 1,
        collapse_rate_den: 2,
    };
    assert_eq!(layer_distance(&s, LayerIndex(0)), 1);
    assert_eq!(layer_distance(&s, LayerIndex(1)), 0);
    assert_eq!(layer_distance(&s, LayerIndex(2)), 0);
}

#[test]
fn layer_index_starts_at_zero() {
    assert_eq!(LayerIndex::default(), LayerIndex(0));
}
