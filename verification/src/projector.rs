//! The geometry projector: maps what the two cameras report for each
//! vertex of a paintable triangle to a re-projected world triangle with
//! per-vertex UVs, or to nothing if any vertex fails to project.
//!
//! The cameras themselves belong to the host engine. For every world-space
//! vertex the engine is asked for the paint camera's normalized device
//! coordinates (for the UV) and, through the paint camera's viewport
//! point, for the play camera's ray toward that point. Both queries are
//! fallible; their answers arrive here as plain fixed-point values.

use vstd::prelude::*;
use crate::fixed::{div_floor, UNIT, VERTEX_BOUND, WORLD_BOUND};
use crate::geom::{RayFx, Vec2Fx, Vec3Fx};
use crate::triangle_with_uvs::{Triangle3Fx, TriangleWithUvs};

verus! {

/// NDC to UV, as a mathematical value. NDC and UV coordinates differ in
/// two ways: NDC span two units per axis and UV one, and their vertical
/// axes point in opposite directions. So `uv = (ndc + 1) / 2`, then the
/// vertical component is flipped to `1 - uv`.
pub open spec fn ndc_to_uv_spec(ndc: Vec3Fx) -> Vec2Fx {
    Vec2Fx {
        x: ((ndc.x + UNIT) / 2) as i64,
        y: (UNIT - (ndc.y + UNIT) / 2) as i64,
    }
}

/// Map a paint-camera NDC point to the UV coordinate under which the
/// canvas texture will show it.
pub fn ndc_to_uv(ndc: &Vec3Fx) -> (uv: Vec2Fx)
    requires
        ndc.in_world(),
    ensures
        uv == ndc_to_uv_spec(*ndc),
{
    let half_x: i128 = div_floor(ndc.x as i128 + UNIT as i128, 2);
    let half_y: i128 = div_floor(ndc.y as i128 + UNIT as i128, 2);
    proof {
        vstd::arithmetic::div_mod::lemma_div_is_ordered(
            -(WORLD_BOUND as int),
            ndc.x + UNIT,
            2,
        );
        vstd::arithmetic::div_mod::lemma_div_is_ordered(
            ndc.x + UNIT,
            2 * (WORLD_BOUND as int),
            2,
        );
        vstd::arithmetic::div_mod::lemma_div_is_ordered(
            -(WORLD_BOUND as int),
            ndc.y + UNIT,
            2,
        );
        vstd::arithmetic::div_mod::lemma_div_is_ordered(
            ndc.y + UNIT,
            2 * (WORLD_BOUND as int),
            2,
        );
        crate::fixed::lemma_div_by_multiple_neg(WORLD_BOUND as int, 2);
        vstd::arithmetic::div_mod::lemma_fundamental_div_mod(-(WORLD_BOUND as int), 2);
    }
    Vec2Fx { x: half_x as i64, y: UNIT - (half_y as i64) }
}

/// What the cameras reported for one world-space vertex: the paint
/// camera's NDC for it, and the play camera's ray through the paint
/// camera's viewport point for it. `None` on either side means that
/// camera could not project the vertex (behind the camera, outside the
/// viewport, degenerate projection).
#[derive(Clone, Copy, Debug)]
pub struct VertexSight {
    /// Paint-camera normalized device coordinates of the vertex.
    pub ndc: Option<Vec3Fx>,
    /// Play-camera ray toward the vertex's viewport point.
    pub ray: Option<RayFx>,
}

impl VertexSight {
    /// Both camera queries succeeded.
    pub open spec fn visible(self) -> bool {
        self.ndc is Some && self.ray is Some
    }

    /// Whatever the cameras reported lies within the engine's coordinate
    /// bound.
    pub open spec fn in_world(self) -> bool {
        &&& (self.ndc is Some ==> self.ndc->Some_0.in_world())
        &&& (self.ray is Some ==> self.ray->Some_0.in_world())
    }
}

/// The re-projected vertex and its UV, as mathematical values: the point
/// `distance` ticks along the play-camera ray, paired with the UV of the
/// paint-camera NDC. `None` exactly when either camera query failed.
pub open spec fn project_vertex_spec(s: VertexSight, distance: int) -> Option<(Vec3Fx, Vec2Fx)> {
    if s.ndc is Some && s.ray is Some {
        Some((s.ray->Some_0.point_at_spec(distance), ndc_to_uv_spec(s.ndc->Some_0)))
    } else {
        None
    }
}

/// Re-project one vertex: advance along the play-camera ray and pair the
/// result with the UV of the paint-camera NDC.
pub fn project_vertex(s: &VertexSight, distance: i64) -> (r: Option<(Vec3Fx, Vec2Fx)>)
    requires
        s.in_world(),
        0 <= distance <= WORLD_BOUND,
    ensures
        r == project_vertex_spec(*s, distance as int),
        r is Some <==> s.visible(),
        r is Some ==> r->Some_0.0.within(VERTEX_BOUND as int),
{
    match (&s.ndc, &s.ray) {
        (Some(ndc), Some(ray)) => Some((ray.point_at(distance), ndc_to_uv(ndc))),
        _ => None,
    }
}

/// What the cameras reported for the three vertices of one mesh triangle,
/// in vertex order.
#[derive(Clone, Copy, Debug)]
pub struct TriangleSight {
    pub vertices: [VertexSight; 3],
}

impl TriangleSight {
    /// All three vertices projected under both cameras.
    pub open spec fn all_visible(self) -> bool {
        forall|i: int| 0 <= i < 3 ==> (#[trigger] self.vertices[i]).visible()
    }

    /// Every reported coordinate lies within the engine's bound.
    pub open spec fn in_world(self) -> bool {
        forall|i: int| 0 <= i < 3 ==> (#[trigger] self.vertices[i]).in_world()
    }
}

/// The projected triangle with UVs, as a mathematical value: the three
/// re-projected vertices paired with their UVs in vertex order, or `None`
/// if any one of the three vertices fails to project.
pub open spec fn project_triangle_spec(s: TriangleSight, distance: int) -> Option<TriangleWithUvs> {
    let p0 = project_vertex_spec(s.vertices[0], distance);
    let p1 = project_vertex_spec(s.vertices[1], distance);
    let p2 = project_vertex_spec(s.vertices[2], distance);
    if p0 is Some && p1 is Some && p2 is Some {
        Some(
            TriangleWithUvs {
                triangle: Triangle3Fx {
                    vertices: [p0->Some_0.0, p1->Some_0.0, p2->Some_0.0],
                },
                uvs: [p0->Some_0.1, p1->Some_0.1, p2->Some_0.1],
            },
        )
    } else {
        None
    }
}

/// A triangle whose three vertices are all inside both cameras' valid
/// projection volumes always projects: the result is `Some`, it carries
/// exactly the three vertex/UV pairs given by the per-vertex projection
/// in vertex order, and the resulting triangle's centroid is the
/// floor-mean of its three vertices.
pub proof fn lemma_fully_visible_triangle_projects(s: TriangleSight, distance: int)
    requires
        s.all_visible(),
    ensures
        project_triangle_spec(s, distance) is Some,
        forall|i: int|
            0 <= i < 3 ==> #[trigger] project_triangle_spec(
                s,
                distance,
            )->Some_0.triangle.vertices[i] == s.vertices[i].ray->Some_0.point_at_spec(distance),
        forall|i: int|
            0 <= i < 3 ==> #[trigger] project_triangle_spec(s, distance)->Some_0.uvs[i]
                == ndc_to_uv_spec(s.vertices[i].ndc->Some_0),
        project_triangle_spec(s, distance)->Some_0.triangle.centroid_spec() == (Vec3Fx {
            x: ((project_triangle_spec(s, distance)->Some_0.triangle.vertices[0].x
                + project_triangle_spec(s, distance)->Some_0.triangle.vertices[1].x
                + project_triangle_spec(s, distance)->Some_0.triangle.vertices[2].x) / 3) as i64,
            y: ((project_triangle_spec(s, distance)->Some_0.triangle.vertices[0].y
                + project_triangle_spec(s, distance)->Some_0.triangle.vertices[1].y
                + project_triangle_spec(s, distance)->Some_0.triangle.vertices[2].y) / 3) as i64,
            z: ((project_triangle_spec(s, distance)->Some_0.triangle.vertices[0].z
                + project_triangle_spec(s, distance)->Some_0.triangle.vertices[1].z
                + project_triangle_spec(s, distance)->Some_0.triangle.vertices[2].z) / 3) as i64,
        }),
{
    assert(s.vertices[0].visible());
    assert(s.vertices[1].visible());
    assert(s.vertices[2].visible());
}

/// Re-project a whole triangle. The result is `Some` exactly when all
/// three vertices are visible to both cameras; a triangle with any
/// failing vertex is dropped whole, none of its vertices is used.
pub fn project_triangle(s: &TriangleSight, distance: i64) -> (r: Option<TriangleWithUvs>)
    requires
        s.in_world(),
        0 <= distance <= WORLD_BOUND,
    ensures
        r == project_triangle_spec(*s, distance as int),
        r is Some <==> s.all_visible(),
        r is Some ==> r->Some_0.triangle.within(VERTEX_BOUND as int),
{
    proof {
        assert(s.vertices[0].in_world());
        assert(s.vertices[1].in_world());
        assert(s.vertices[2].in_world());
    }
    let p0 = project_vertex(&s.vertices[0], distance);
    let p1 = project_vertex(&s.vertices[1], distance);
    let p2 = project_vertex(&s.vertices[2], distance);
    match (p0, p1, p2) {
        (Some(q0), Some(q1), Some(q2)) => {
            let r = TriangleWithUvs {
                triangle: Triangle3Fx { vertices: [q0.0, q1.0, q2.0] },
                uvs: [q0.1, q1.1, q2.1],
            };
            proof {
                assert(r.triangle.vertices[0].within(VERTEX_BOUND as int));
                assert(r.triangle.vertices[1].within(VERTEX_BOUND as int));
                assert(r.triangle.vertices[2].within(VERTEX_BOUND as int));
            }
            Some(r)
        },
        _ => None,
    }
}

} // verus!
