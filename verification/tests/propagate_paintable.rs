//! Paintable propagation over scene hierarchies.

use clear_skies::propagate::{propagate_paintable_on_scenes, Scene, SceneNode};

fn node(parent: Option<usize>, paintable: bool) -> SceneNode {
    SceneNode { parent, paintable }
}

/// Node 0 is a paintable root with children 1 and 2 and grandchild 3;
/// node 4 is a second, unmarked root with child 5.
fn sample_scene() -> Scene {
    Scene {
        nodes: vec![
            node(None, true),
            node(Some(0), false),
            node(Some(0), false),
            node(Some(1), false),
            node(None, false),
            node(Some(4), false),
        ],
    }
}

fn marked(scene: &Scene) -> Vec<bool> {
    scene.nodes.iter().map(|n| n.paintable).collect()
}

#[test]
fn propagation_marks_exactly_the_roots_subtree() {
    let mut scene = sample_scene();
    propagate_paintable_on_scenes(&mut scene, 0);
    assert_eq!(marked(&scene), vec![true, true, true, true, false, false]);
}

#[test]
fn unmarked_root_propagates_nothing() {
    let mut scene = sample_scene();
    propagate_paintable_on_scenes(&mut scene, 4);
    assert_eq!(marked(&scene), vec![true, false, false, false, false, false]);
}

#[test]
fn propagation_is_idempotent() {
    let mut once = sample_scene();
    propagate_paintable_on_scenes(&mut once, 0);
    let after_once = marked(&once);

    propagate_paintable_on_scenes(&mut once, 0);
    assert_eq!(marked(&once), after_once);
}

#[test]
fn propagation_never_removes_markers() {
    let mut scene = Scene {
        nodes: vec![node(None, true), node(Some(0), false), node(None, true)],
    };
    propagate_paintable_on_scenes(&mut scene, 0);
    assert_eq!(marked(&scene), vec![true, true, true]);
}

#[test]
fn parents_survive_propagation() {
    let mut scene = sample_scene();
    propagate_paintable_on_scenes(&mut scene, 0);
    let parents: Vec<Option<usize>> = scene.nodes.iter().map(|n| n.parent).collect();
    assert_eq!(parents, vec![None, Some(0), Some(0), Some(1), None, Some(4)]);
}
