//! The paint gate, the paint pass and the capture protocol.

use clear_skies::fixed::UNIT;
use clear_skies::geom::{RayFx, Vec3Fx};
use clear_skies::layer_distance::{LayerIndex, PaintLayerSettings};
use clear_skies::paint_meshes::{
    paint_meshes, tick_paint_meshes_timer, PaintMeshesTimer, PaintPhase, PaintPipeline,
    PaintableMesh,
};
use clear_skies::projector::{TriangleSight, VertexSight};

fn v3(x: i64, y: i64, z: i64) -> Vec3Fx {
    Vec3Fx { x, y, z }
}

fn visible_sight(direction: Vec3Fx) -> VertexSight {
    VertexSight {
        ndc: Some(v3(0, 0, 0)),
        ray: Some(RayFx {
            origin: v3(0, 0, 0),
            direction,
        }),
    }
}

fn visible_triangle() -> TriangleSight {
    TriangleSight {
        vertices: [
            visible_sight(v3(UNIT, 0, 0)),
            visible_sight(v3(0, UNIT, 0)),
            visible_sight(v3(0, 0, UNIT)),
        ],
    }
}

fn clipped_triangle() -> TriangleSight {
    TriangleSight {
        vertices: [
            visible_sight(v3(UNIT, 0, 0)),
            VertexSight {
                ndc: None,
                ray: None,
            },
            visible_sight(v3(0, 0, UNIT)),
        ],
    }
}

fn two_unit_settings() -> PaintLayerSettings {
    // Two world units at layer zero, halving per layer.
    PaintLayerSettings {
        zero_layer_distance: 2 * UNIT,
        collapse_rate_num: 1,
        collapse_rate_den: 2,
    }
}

#[test]
fn timer_finishes_once_per_full_interval() {
    let mut timer = PaintMeshesTimer::default();
    assert_eq!(timer.interval_ms, 100);
    assert_eq!(timer.tick(99), 0);
    assert_eq!(timer.tick(1), 1);
    assert_eq!(timer.tick(250), 2);
    assert_eq!(timer.elapsed_ms, 50);
}

#[test]
fn released_gate_pauses_without_resetting() {
    let mut timer = PaintMeshesTimer::default();
    assert_eq!(tick_paint_meshes_timer(&mut timer, 60, true), 0);
    // Released: time passes but the accumulator holds at 60.
    assert_eq!(tick_paint_meshes_timer(&mut timer, 500, false), 0);
    assert_eq!(timer.elapsed_ms, 60);
    // Held again: the remaining 40 ms finish the interval.
    assert_eq!(tick_paint_meshes_timer(&mut timer, 40, true), 1);
    assert_eq!(timer.elapsed_ms, 0);
}

#[test]
fn holding_for_one_interval_requests_exactly_one_capture() {
    let mut p = PaintPipeline::new(two_unit_settings());
    // Held for exactly one full interval: one capture request fires.
    assert!(!p.frame(40, true));
    assert!(p.frame(60, true));
    // Released immediately after: no further requests...
    assert!(!p.frame(500, false));
    assert!(!p.frame(500, false));
    // ...and none while the capture is still in flight, even if held.
    assert!(!p.frame(100, true));
    assert_eq!(p.phase, PaintPhase::Capturing);
}

#[test]
fn capture_complete_paints_then_returns_to_idle() {
    let mut p = PaintPipeline::new(two_unit_settings());
    assert!(p.frame(100, true));

    let meshes = vec![PaintableMesh {
        entity: 7,
        triangles: Some(vec![visible_triangle()]),
    }];
    let painted = p.capture_complete(&meshes);

    assert_eq!(painted.len(), 1);
    assert_eq!(p.phase, PaintPhase::Idle);
    assert_eq!(p.layer_index, LayerIndex(1));
    assert_eq!(p.canvas.captures, 1);

    // The paint gate can request again for the next layer.
    assert!(p.frame(100, true));
}

#[test]
fn pass_skips_unresolved_meshes_and_clipped_triangles() {
    let meshes = vec![
        PaintableMesh {
            entity: 1,
            triangles: Some(vec![visible_triangle(), clipped_triangle()]),
        },
        PaintableMesh {
            entity: 2,
            triangles: None,
        },
        PaintableMesh {
            entity: 3,
            triangles: Some(vec![clipped_triangle(), visible_triangle()]),
        },
    ];
    let mut layer = LayerIndex(4);
    let painted = paint_meshes(&meshes, &two_unit_settings(), &mut layer);

    assert_eq!(painted.len(), 2);
    assert_eq!(painted[0].painted_from, 1);
    assert_eq!(painted[0].triangle_index, 0);
    assert_eq!(painted[0].paint_layer, LayerIndex(4));
    assert_eq!(painted[1].painted_from, 3);
    assert_eq!(painted[1].triangle_index, 1);
    assert_eq!(painted[1].paint_layer, LayerIndex(4));
    assert_eq!(layer, LayerIndex(5));
}

#[test]
fn empty_pass_still_increments_the_layer_exactly_once() {
    let meshes: Vec<PaintableMesh> = vec![];
    let mut layer = LayerIndex(0);
    let painted = paint_meshes(&meshes, &two_unit_settings(), &mut layer);
    assert!(painted.is_empty());
    assert_eq!(layer, LayerIndex(1));
}

#[test]
fn painted_mesh_holds_the_centered_triangle_and_centroid() {
    // Layer 1 of the two-unit settings projects at one unit.
    let meshes = vec![PaintableMesh {
        entity: 9,
        triangles: Some(vec![visible_triangle()]),
    }];
    let mut layer = LayerIndex(1);
    let painted = paint_meshes(&meshes, &two_unit_settings(), &mut layer);

    assert_eq!(painted.len(), 1);
    let m = &painted[0];
    // Projected vertices are UNIT along each axis; their centroid floors
    // to a third of a unit on each axis.
    let third = UNIT / 3 as i64;
    assert_eq!(m.centroid, v3(third, third, third));
    assert_eq!(m.triangle.triangle.vertices[0], v3(UNIT - third, -third, -third));
    assert_eq!(m.triangle.triangle.vertices[1], v3(-third, UNIT - third, -third));
    assert_eq!(m.triangle.triangle.vertices[2], v3(-third, -third, UNIT - third));
    // Each vertex keeps its own UV: the shared NDC origin maps to the
    // canvas center.
    assert_eq!(m.triangle.uvs[0].x, UNIT / 2);
    assert_eq!(m.triangle.uvs[0].y, UNIT / 2);
}
