//! Centering triangles and octahedra on their centroid.

use clear_skies::geom::{Vec2Fx, Vec3Fx};
use clear_skies::triangle_with_uvs::{OctahedronWithUvs, Triangle3Fx, TriangleWithUvs};

fn v3(x: i64, y: i64, z: i64) -> Vec3Fx {
    Vec3Fx { x, y, z }
}

fn uv(x: i64, y: i64) -> Vec2Fx {
    Vec2Fx { x, y }
}

fn sample_triangle() -> TriangleWithUvs {
    TriangleWithUvs {
        triangle: Triangle3Fx {
            vertices: [v3(3, 0, 30), v3(0, 6, -60), v3(9, 3, 90)],
        },
        uvs: [uv(1, 2), uv(3, 4), uv(5, 6)],
    }
}

#[test]
fn centroid_is_the_mean_of_the_vertices() {
    let t = sample_triangle();
    assert_eq!(t.triangle.centroid(), v3(4, 3, 20));
}

#[test]
fn centroid_rounds_toward_negative_infinity() {
    let t = Triangle3Fx {
        vertices: [v3(-1, 0, 2), v3(-1, 1, 0), v3(0, 1, 0)],
    };
    // Sums are -2, 2 and 2: the means floor to -1, 0 and 0.
    assert_eq!(t.centroid(), v3(-1, 0, 0));
}

#[test]
fn centering_returns_centroid_and_shifted_vertices() {
    let t = sample_triangle();
    let (centroid, centered) = t.centered();
    assert_eq!(centroid, v3(4, 3, 20));
    assert_eq!(centered.triangle.vertices[0], v3(-1, -3, 10));
    assert_eq!(centered.triangle.vertices[1], v3(-4, 3, -80));
    assert_eq!(centered.triangle.vertices[2], v3(5, 0, 70));
    assert_eq!(centered.uvs, t.uvs);
}

#[test]
fn centering_round_trips() {
    let t = sample_triangle();
    let (centroid, centered) = t.centered();
    for i in 0..3 {
        let c = centered.triangle.vertices[i];
        let o = t.triangle.vertices[i];
        assert_eq!(c.x + centroid.x, o.x);
        assert_eq!(c.y + centroid.y, o.y);
        assert_eq!(c.z + centroid.z, o.z);
    }
}

#[test]
fn centered_triangle_has_centroid_at_the_origin() {
    let t = sample_triangle();
    let (_, centered) = t.centered();
    assert_eq!(centered.triangle.centroid(), v3(0, 0, 0));

    // Also when the floor-mean leaves a remainder on every axis.
    let rough = TriangleWithUvs {
        triangle: Triangle3Fx {
            vertices: [v3(0, -1, 5), v3(1, -1, 5), v3(1, 0, 6)],
        },
        uvs: [uv(0, 0), uv(0, 0), uv(0, 0)],
    };
    let (_, rough_centered) = rough.centered();
    assert_eq!(rough_centered.triangle.centroid(), v3(0, 0, 0));
}

#[test]
fn octahedron_centers_on_the_midpoint_of_its_face_centroids() {
    let near = TriangleWithUvs {
        triangle: Triangle3Fx {
            vertices: [v3(0, 0, 0), v3(6, 0, 0), v3(0, 6, 0)],
        },
        uvs: [uv(0, 0), uv(1, 0), uv(0, 1)],
    };
    let far = TriangleWithUvs {
        triangle: Triangle3Fx {
            vertices: [v3(0, 0, 10), v3(6, 0, 10), v3(0, 6, 10)],
        },
        uvs: [uv(0, 0), uv(1, 0), uv(0, 1)],
    };
    let octa = OctahedronWithUvs {
        near_face: near,
        far_face: far,
    };
    let (centroid, centered) = octa.centered();
    // Face centroids are (2, 2, 0) and (2, 2, 10); their midpoint is
    // (2, 2, 5).
    assert_eq!(centroid, v3(2, 2, 5));
    assert_eq!(centered.near_face.triangle.vertices[0], v3(-2, -2, -5));
    assert_eq!(centered.far_face.triangle.vertices[0], v3(-2, -2, 5));
    assert_eq!(centered.far_face.triangle.vertices[1], v3(4, -2, 5));
    assert_eq!(centered.near_face.uvs, near.uvs);
    assert_eq!(centered.far_face.uvs, far.uvs);
}
