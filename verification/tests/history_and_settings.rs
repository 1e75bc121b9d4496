//! Layer history, resolution boxing, state enums and dev flags.

use clear_skies::args::DevArgs;
use clear_skies::layer_distance::LayerIndex;
use clear_skies::paint_layer_history::PaintableHistory;
use clear_skies::resolution::{
    letterbox_or_pillarbox_viewport, ClearSkiesResolution, ViewportBoxing,
};
use clear_skies::state::{ClearSkiesState, GameState};

#[test]
fn history_indexes_by_absolute_layer() {
    let mut history: PaintableHistory<i32> = PaintableHistory::new_with_initial_layer(LayerIndex(3));
    assert!(history.get(LayerIndex(3)).is_none());

    history.record(30);
    history.record(40);

    assert!(history.get(LayerIndex(2)).is_none());
    assert_eq!(history.get(LayerIndex(3)), Some(&30));
    assert_eq!(history.get(LayerIndex(4)), Some(&40));
    assert!(history.get(LayerIndex(5)).is_none());
}

#[test]
fn history_before_the_initial_layer_is_empty() {
    let mut history: PaintableHistory<u8> = PaintableHistory::new_with_initial_layer(LayerIndex(10));
    history.record(1);
    assert!(history.get(LayerIndex(0)).is_none());
    assert!(history.get(LayerIndex(9)).is_none());
    assert_eq!(history.get(LayerIndex(10)), Some(&1));
}

#[test]
fn default_resolution_is_480_by_360() {
    let r = ClearSkiesResolution::default();
    assert_eq!(r.x, 480);
    assert_eq!(r.y, 360);
}

#[test]
fn wide_windows_pillarbox_and_tall_windows_letterbox() {
    let r = ClearSkiesResolution::default();
    assert_eq!(
        letterbox_or_pillarbox_viewport(1920, 360, &r),
        ViewportBoxing::Pillarbox
    );
    assert_eq!(
        letterbox_or_pillarbox_viewport(480, 1000, &r),
        ViewportBoxing::Letterbox
    );
    // An exactly matching aspect ratio fills the window full width.
    assert_eq!(
        letterbox_or_pillarbox_viewport(960, 720, &r),
        ViewportBoxing::Letterbox
    );
}

#[test]
fn dev_args_default_off() {
    assert_eq!(DevArgs::default(), DevArgs { wireframe: false });
}

#[test]
fn states_default_to_painting() {
    assert_eq!(GameState::default(), GameState::ClearSkies);
    let s = ClearSkiesState::default();
    assert_eq!(s, ClearSkiesState::PaintSkies);
    assert!(s.painting_active());
    assert!(!ClearSkiesState::Loading.painting_active());
    assert!(!ClearSkiesState::PlaySkies.painting_active());
}
