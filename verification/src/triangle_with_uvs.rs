//! Triangles annotated with per-vertex UV coordinates, and re-centering
//! them on their centroid so a mesh can be placed by a transform alone.

use vstd::prelude::*;
use vstd::arithmetic::div_mod::*;
use crate::fixed::{avg3, div_floor, lemma_div_by_multiple_neg, max3, min3, VERTEX_BOUND};
use crate::geom::{Vec2Fx, Vec3Fx};

verus! {

/// A triangle in fixed-point world space.
#[derive(Clone, Copy, Debug)]
pub struct Triangle3Fx {
    pub vertices: [Vec3Fx; 3],
}

impl Triangle3Fx {
    /// Every vertex coordinate within `b` ticks of the origin.
    pub open spec fn within(self, b: int) -> bool {
        forall|i: int| 0 <= i < 3 ==> #[trigger] self.vertices[i].within(b)
    }

    /// The floor of the arithmetic mean of the three vertices.
    pub open spec fn centroid_spec(self) -> Vec3Fx {
        Vec3Fx {
            x: ((self.vertices[0].x + self.vertices[1].x + self.vertices[2].x) / 3) as i64,
            y: ((self.vertices[0].y + self.vertices[1].y + self.vertices[2].y) / 3) as i64,
            z: ((self.vertices[0].z + self.vertices[1].z + self.vertices[2].z) / 3) as i64,
        }
    }

    /// The centroid of this triangle.
    pub fn centroid(&self) -> (r: Vec3Fx)
        ensures
            r == self.centroid_spec(),
    {
        Vec3Fx {
            x: avg3(self.vertices[0].x, self.vertices[1].x, self.vertices[2].x),
            y: avg3(self.vertices[0].y, self.vertices[1].y, self.vertices[2].y),
            z: avg3(self.vertices[0].z, self.vertices[1].z, self.vertices[2].z),
        }
    }
}

/// Componentwise sum, truncated to `i64`; exact whenever the true sum
/// fits.
pub open spec fn vec3_plus(a: Vec3Fx, b: Vec3Fx) -> Vec3Fx {
    Vec3Fx { x: (a.x + b.x) as i64, y: (a.y + b.y) as i64, z: (a.z + b.z) as i64 }
}

/// Componentwise difference, truncated to `i64`; exact whenever the true
/// difference fits.
pub open spec fn vec3_minus(a: Vec3Fx, b: Vec3Fx) -> Vec3Fx {
    Vec3Fx { x: (a.x - b.x) as i64, y: (a.y - b.y) as i64, z: (a.z - b.z) as i64 }
}

/// A triangle and custom UVs that the host engine can turn into a mesh.
/// Vertex `i` carries UV coordinate `i`; no re-ordering or winding
/// correction is performed.
#[derive(Clone, Copy, Debug)]
pub struct TriangleWithUvs {
    /// The triangle data.
    pub triangle: Triangle3Fx,
    /// The UV data.
    pub uvs: [Vec2Fx; 3],
}

impl TriangleWithUvs {
    /// The centroid and the re-centered triangle, as mathematical values:
    /// the centroid is the floor-mean of the vertices and each centered
    /// vertex is the original minus the centroid; UVs are untouched.
    pub open spec fn centered_spec(self) -> (Vec3Fx, TriangleWithUvs) {
        let centroid = self.triangle.centroid_spec();
        (
            centroid,
            TriangleWithUvs {
                triangle: Triangle3Fx {
                    vertices: [
                        vec3_minus(self.triangle.vertices[0], centroid),
                        vec3_minus(self.triangle.vertices[1], centroid),
                        vec3_minus(self.triangle.vertices[2], centroid),
                    ],
                },
                uvs: self.uvs,
            },
        )
    }

    /// Returns the centroid of the triangle and a new `TriangleWithUvs`
    /// whose vertices are relative to that centroid.
    pub fn centered(self) -> (r: (Vec3Fx, TriangleWithUvs))
        requires
            self.triangle.within(VERTEX_BOUND as int),
        ensures
            r == self.centered_spec(),
    {
        let centroid = self.triangle.centroid();
        proof {
            lemma_centroid_between(self.triangle);
            assert(self.triangle.vertices[0].within(VERTEX_BOUND as int));
            assert(self.triangle.vertices[1].within(VERTEX_BOUND as int));
            assert(self.triangle.vertices[2].within(VERTEX_BOUND as int));
        }
        let triangle = Triangle3Fx {
            vertices: [
                sub_vertex(&self.triangle.vertices[0], &centroid),
                sub_vertex(&self.triangle.vertices[1], &centroid),
                sub_vertex(&self.triangle.vertices[2], &centroid),
            ],
        };
        (centroid, TriangleWithUvs { triangle, uvs: self.uvs })
    }
}

/// An octahedron type, built by creating 6 triangles between two
/// triangular faces.
#[derive(Clone, Copy, Debug)]
pub struct OctahedronWithUvs {
    /// The near face.
    pub near_face: TriangleWithUvs,
    /// The far face.
    pub far_face: TriangleWithUvs,
}

/// The floor-midpoint of two points.
pub open spec fn vec3_midpoint(a: Vec3Fx, b: Vec3Fx) -> Vec3Fx {
    Vec3Fx {
        x: ((a.x + b.x) / 2) as i64,
        y: ((a.y + b.y) / 2) as i64,
        z: ((a.z + b.z) / 2) as i64,
    }
}

impl OctahedronWithUvs {
    /// Both faces' vertices within `b` ticks of the origin.
    pub open spec fn within(self, b: int) -> bool {
        self.near_face.triangle.within(b) && self.far_face.triangle.within(b)
    }

    /// The octahedron's centroid: the midpoint of its two faces'
    /// centroids.
    pub open spec fn centroid_spec(self) -> Vec3Fx {
        vec3_midpoint(
            self.near_face.triangle.centroid_spec(),
            self.far_face.triangle.centroid_spec(),
        )
    }

    /// The centroid and the re-centered octahedron, as mathematical
    /// values: every vertex of both faces shifted by the centroid, UVs
    /// untouched.
    pub open spec fn centered_spec(self) -> (Vec3Fx, OctahedronWithUvs) {
        let centroid = self.centroid_spec();
        (
            centroid,
            OctahedronWithUvs {
                near_face: TriangleWithUvs {
                    triangle: Triangle3Fx {
                        vertices: [
                            vec3_minus(self.near_face.triangle.vertices[0], centroid),
                            vec3_minus(self.near_face.triangle.vertices[1], centroid),
                            vec3_minus(self.near_face.triangle.vertices[2], centroid),
                        ],
                    },
                    uvs: self.near_face.uvs,
                },
                far_face: TriangleWithUvs {
                    triangle: Triangle3Fx {
                        vertices: [
                            vec3_minus(self.far_face.triangle.vertices[0], centroid),
                            vec3_minus(self.far_face.triangle.vertices[1], centroid),
                            vec3_minus(self.far_face.triangle.vertices[2], centroid),
                        ],
                    },
                    uvs: self.far_face.uvs,
                },
            },
        )
    }

    /// Returns the centroid of the octahedron and a new
    /// `OctahedronWithUvs` whose vertices are relative to that centroid.
    pub fn centered(self) -> (r: (Vec3Fx, OctahedronWithUvs))
        requires
            self.within(VERTEX_BOUND as int),
        ensures
            r == self.centered_spec(),
    {
        let near_centroid = self.near_face.triangle.centroid();
        let far_centroid = self.far_face.triangle.centroid();
        proof {
            lemma_centroid_between(self.near_face.triangle);
            lemma_centroid_between(self.far_face.triangle);
            assert(self.near_face.triangle.vertices[0].within(VERTEX_BOUND as int));
            assert(self.near_face.triangle.vertices[1].within(VERTEX_BOUND as int));
            assert(self.near_face.triangle.vertices[2].within(VERTEX_BOUND as int));
            assert(self.far_face.triangle.vertices[0].within(VERTEX_BOUND as int));
            assert(self.far_face.triangle.vertices[1].within(VERTEX_BOUND as int));
            assert(self.far_face.triangle.vertices[2].within(VERTEX_BOUND as int));
        }
        let centroid = midpoint_vertex(&near_centroid, &far_centroid);
        let near_triangle = Triangle3Fx {
            vertices: [
                sub_vertex(&self.near_face.triangle.vertices[0], &centroid),
                sub_vertex(&self.near_face.triangle.vertices[1], &centroid),
                sub_vertex(&self.near_face.triangle.vertices[2], &centroid),
            ],
        };
        let far_triangle = Triangle3Fx {
            vertices: [
                sub_vertex(&self.far_face.triangle.vertices[0], &centroid),
                sub_vertex(&self.far_face.triangle.vertices[1], &centroid),
                sub_vertex(&self.far_face.triangle.vertices[2], &centroid),
            ],
        };
        let centered = OctahedronWithUvs {
            near_face: TriangleWithUvs { triangle: near_triangle, uvs: self.near_face.uvs },
            far_face: TriangleWithUvs { triangle: far_triangle, uvs: self.far_face.uvs },
        };
        (centroid, centered)
    }
}

/// The floor-midpoint of two nearby points, each coordinate rounding
/// toward negative infinity.
fn midpoint_vertex(a: &Vec3Fx, b: &Vec3Fx) -> (r: Vec3Fx)
    requires
        a.within(VERTEX_BOUND as int),
        b.within(VERTEX_BOUND as int),
    ensures
        r == vec3_midpoint(*a, *b),
        r.within(VERTEX_BOUND as int),
{
    let x: i128 = div_floor(a.x as i128 + b.x as i128, 2);
    let y: i128 = div_floor(a.y as i128 + b.y as i128, 2);
    let z: i128 = div_floor(a.z as i128 + b.z as i128, 2);
    proof {
        lemma_mid_between(a.x as int, b.x as int);
        lemma_mid_between(a.y as int, b.y as int);
        lemma_mid_between(a.z as int, b.z as int);
    }
    Vec3Fx { x: x as i64, y: y as i64, z: z as i64 }
}

/// The floor-midpoint of two integers lies between them.
proof fn lemma_mid_between(a: int, b: int)
    ensures
        vstd::math::min(a, b) <= (a + b) / 2 <= vstd::math::max(a, b),
{
    let lo = vstd::math::min(a, b);
    let hi = vstd::math::max(a, b);
    lemma_div_is_ordered(2 * lo, a + b, 2);
    lemma_div_is_ordered(a + b, 2 * hi, 2);
    lemma_div_by_multiple_neg(lo, 2);
    lemma_div_by_multiple_neg(hi, 2);
}

/// Componentwise subtraction of two nearby points.
fn sub_vertex(v: &Vec3Fx, c: &Vec3Fx) -> (r: Vec3Fx)
    requires
        v.x - c.x <= i64::MAX && i64::MIN <= v.x - c.x,
        v.y - c.y <= i64::MAX && i64::MIN <= v.y - c.y,
        v.z - c.z <= i64::MAX && i64::MIN <= v.z - c.z,
    ensures
        r == vec3_minus(*v, *c),
{
    Vec3Fx { x: v.x - c.x, y: v.y - c.y, z: v.z - c.z }
}

/// Each centroid coordinate lies between the least and greatest vertex
/// coordinate on its axis.
pub proof fn lemma_centroid_between(t: Triangle3Fx)
    ensures
        min3(t.vertices[0].x as int, t.vertices[1].x as int, t.vertices[2].x as int)
            <= t.centroid_spec().x
            <= max3(t.vertices[0].x as int, t.vertices[1].x as int, t.vertices[2].x as int),
        min3(t.vertices[0].y as int, t.vertices[1].y as int, t.vertices[2].y as int)
            <= t.centroid_spec().y
            <= max3(t.vertices[0].y as int, t.vertices[1].y as int, t.vertices[2].y as int),
        min3(t.vertices[0].z as int, t.vertices[1].z as int, t.vertices[2].z as int)
            <= t.centroid_spec().z
            <= max3(t.vertices[0].z as int, t.vertices[1].z as int, t.vertices[2].z as int),
{
    lemma_avg3_between(t.vertices[0].x as int, t.vertices[1].x as int, t.vertices[2].x as int);
    lemma_avg3_between(t.vertices[0].y as int, t.vertices[1].y as int, t.vertices[2].y as int);
    lemma_avg3_between(t.vertices[0].z as int, t.vertices[1].z as int, t.vertices[2].z as int);
}

/// The floor-mean of three integers lies between their least and greatest.
proof fn lemma_avg3_between(a: int, b: int, c: int)
    ensures
        min3(a, b, c) <= (a + b + c) / 3 <= max3(a, b, c),
{
    let lo = min3(a, b, c);
    let hi = max3(a, b, c);
    lemma_div_is_ordered(3 * lo, a + b + c, 3);
    lemma_div_is_ordered(a + b + c, 3 * hi, 3);
    lemma_div_by_multiple_neg(lo, 3);
    lemma_div_by_multiple_neg(hi, 3);
}

/// Centering law: adding the centroid back to each centered vertex gives
/// the original vertex, and the centroid of the centered triangle is
/// exactly the origin.
pub proof fn lemma_centering_round_trip(t: TriangleWithUvs)
    requires
        t.triangle.within(VERTEX_BOUND as int),
    ensures
        forall|i: int| 0 <= i < 3 ==> vec3_plus(
            #[trigger] t.centered_spec().1.triangle.vertices[i],
            t.centered_spec().0,
        ) == t.triangle.vertices[i],
        t.centered_spec().1.triangle.centroid_spec() == (Vec3Fx { x: 0, y: 0, z: 0 }),
        t.centered_spec().1.uvs == t.uvs,
{
    let c = t.centered_spec().0;
    lemma_centroid_between(t.triangle);
    assert(t.triangle.vertices[0].within(VERTEX_BOUND as int));
    assert(t.triangle.vertices[1].within(VERTEX_BOUND as int));
    assert(t.triangle.vertices[2].within(VERTEX_BOUND as int));
    assert forall|i: int| 0 <= i < 3 implies vec3_plus(
        #[trigger] t.centered_spec().1.triangle.vertices[i],
        t.centered_spec().0,
    ) == t.triangle.vertices[i] by {
        assert(t.triangle.vertices[0].within(VERTEX_BOUND as int));
    }
    let ct = t.centered_spec().1.triangle;
    lemma_centered_sum_zero(
        t.triangle.vertices[0].x as int,
        t.triangle.vertices[1].x as int,
        t.triangle.vertices[2].x as int,
    );
    lemma_centered_sum_zero(
        t.triangle.vertices[0].y as int,
        t.triangle.vertices[1].y as int,
        t.triangle.vertices[2].y as int,
    );
    lemma_centered_sum_zero(
        t.triangle.vertices[0].z as int,
        t.triangle.vertices[1].z as int,
        t.triangle.vertices[2].z as int,
    );
    assert(ct.vertices[0].x == t.triangle.vertices[0].x - c.x);
    assert(ct.vertices[1].x == t.triangle.vertices[1].x - c.x);
    assert(ct.vertices[2].x == t.triangle.vertices[2].x - c.x);
    assert(ct.vertices[0].y == t.triangle.vertices[0].y - c.y);
    assert(ct.vertices[1].y == t.triangle.vertices[1].y - c.y);
    assert(ct.vertices[2].y == t.triangle.vertices[2].y - c.y);
    assert(ct.vertices[0].z == t.triangle.vertices[0].z - c.z);
    assert(ct.vertices[1].z == t.triangle.vertices[1].z - c.z);
    assert(ct.vertices[2].z == t.triangle.vertices[2].z - c.z);
    assert(ct.centroid_spec().x == 0);
    assert(ct.centroid_spec().y == 0);
    assert(ct.centroid_spec().z == 0);
}

/// Subtracting the floor-mean from each of three integers leaves a triple
/// whose floor-mean is zero.
proof fn lemma_centered_sum_zero(a: int, b: int, c: int)
    ensures
        ((a - (a + b + c) / 3) + (b - (a + b + c) / 3) + (c - (a + b + c) / 3)) / 3 == 0,
{
    let s = a + b + c;
    let q = s / 3;
    lemma_fundamental_div_mod(s, 3);
    lemma_mod_bound(s, 3);
    assert((a - q) + (b - q) + (c - q) == s % 3);
    lemma_basic_div(s % 3, 3);
}

} // verus!
