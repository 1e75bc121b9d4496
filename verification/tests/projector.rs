//! The geometry projector: NDC to UV mapping, ray advance, and the
//! all-or-nothing rule for triangles.

use clear_skies::fixed::UNIT;
use clear_skies::geom::{RayFx, Vec3Fx};
use clear_skies::projector::{
    ndc_to_uv, project_triangle, project_vertex, TriangleSight, VertexSight,
};

fn v3(x: i64, y: i64, z: i64) -> Vec3Fx {
    Vec3Fx { x, y, z }
}

fn sight(ndc: Vec3Fx, ray: RayFx) -> VertexSight {
    VertexSight {
        ndc: Some(ndc),
        ray: Some(ray),
    }
}

fn z_ray() -> RayFx {
    RayFx {
        origin: v3(0, 0, 0),
        direction: v3(0, 0, UNIT),
    }
}

#[test]
fn ndc_origin_maps_to_uv_center() {
    // NDC (0, 0, 0) lands at the middle of the canvas.
    let uv = ndc_to_uv(&v3(0, 0, 0));
    assert_eq!(uv.x, UNIT / 2);
    assert_eq!(uv.y, UNIT / 2);
}

#[test]
fn ndc_right_edge_maps_to_uv_right_middle() {
    // NDC (1, 0, 0) lands at UV (1.0, 0.5).
    let uv = ndc_to_uv(&v3(UNIT, 0, 0));
    assert_eq!(uv.x, UNIT);
    assert_eq!(uv.y, UNIT / 2);
}

#[test]
fn ndc_top_maps_to_uv_top_flipped() {
    // NDC (0, 1, 0) lands at UV (0.5, 0.0): NDC's up is UV's down.
    let uv = ndc_to_uv(&v3(0, UNIT, 0));
    assert_eq!(uv.x, UNIT / 2);
    assert_eq!(uv.y, 0);
}

#[test]
fn ndc_bottom_left_maps_to_uv_corner() {
    let uv = ndc_to_uv(&v3(-UNIT, -UNIT, 0));
    assert_eq!(uv.x, 0);
    assert_eq!(uv.y, UNIT);
}

#[test]
fn vertex_advances_along_the_ray() {
    let s = sight(v3(0, 0, 0), z_ray());
    let (vertex, uv) = project_vertex(&s, 5 * UNIT).expect("fully visible vertex");
    assert_eq!(vertex, v3(0, 0, 5 * UNIT));
    assert_eq!(uv.x, UNIT / 2);
    assert_eq!(uv.y, UNIT / 2);
}

#[test]
fn vertex_without_ndc_fails() {
    let s = VertexSight {
        ndc: None,
        ray: Some(z_ray()),
    };
    assert!(project_vertex(&s, UNIT).is_none());
}

#[test]
fn vertex_without_ray_fails() {
    let s = VertexSight {
        ndc: Some(v3(0, 0, 0)),
        ray: None,
    };
    assert!(project_vertex(&s, UNIT).is_none());
}

#[test]
fn fully_visible_triangle_projects_with_three_vertex_uv_pairs() {
    // The three NDC points of the unit-square-facing triangle from the
    // UV scenario, each with its own play-camera ray.
    let t = TriangleSight {
        vertices: [
            sight(
                v3(0, 0, 0),
                RayFx {
                    origin: v3(0, 0, 0),
                    direction: v3(0, 0, UNIT),
                },
            ),
            sight(
                v3(UNIT, 0, 0),
                RayFx {
                    origin: v3(0, 0, 0),
                    direction: v3(UNIT, 0, 0),
                },
            ),
            sight(
                v3(0, UNIT, 0),
                RayFx {
                    origin: v3(0, 0, 0),
                    direction: v3(0, UNIT, 0),
                },
            ),
        ],
    };
    let projected = project_triangle(&t, 2 * UNIT).expect("fully visible triangle");
    assert_eq!(projected.triangle.vertices[0], v3(0, 0, 2 * UNIT));
    assert_eq!(projected.triangle.vertices[1], v3(2 * UNIT, 0, 0));
    assert_eq!(projected.triangle.vertices[2], v3(0, 2 * UNIT, 0));
    assert_eq!(projected.uvs[0].x, UNIT / 2);
    assert_eq!(projected.uvs[0].y, UNIT / 2);
    assert_eq!(projected.uvs[1].x, UNIT);
    assert_eq!(projected.uvs[1].y, UNIT / 2);
    assert_eq!(projected.uvs[2].x, UNIT / 2);
    assert_eq!(projected.uvs[2].y, 0);
}

#[test]
fn one_failing_vertex_drops_the_whole_triangle() {
    // The third vertex has no play-camera ray: no partial triangle comes
    // back, the other two vertices are unused.
    let t = TriangleSight {
        vertices: [
            sight(v3(0, 0, 0), z_ray()),
            sight(v3(UNIT, 0, 0), z_ray()),
            VertexSight {
                ndc: Some(v3(0, UNIT, 0)),
                ray: None,
            },
        ],
    };
    assert!(project_triangle(&t, UNIT).is_none());
}
