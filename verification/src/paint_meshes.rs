//! The paint canvas and capture protocol: a repeating timer gated by the
//! paint input decides when to request a capture of the paint camera's
//! render target; when the capture completes, the canvas is overwritten
//! and every visible paintable triangle is re-projected and recorded as a
//! painted mesh, after which the layer index increments by exactly one.

use vstd::prelude::*;
use vstd::arithmetic::div_mod::*;
use crate::fixed::WORLD_BOUND;
use crate::geom::Vec3Fx;
use crate::layer_distance::{layer_distance, layer_distance_spec, LayerIndex, PaintLayerSettings};
use crate::projector::{project_triangle, project_triangle_spec, TriangleSight};
use crate::triangle_with_uvs::TriangleWithUvs;

verus! {

/// The repeating timer that paces paint passes, in whole milliseconds.
#[derive(Clone, Copy, Debug, PartialEq, Eq, Structural)]
pub struct PaintMeshesTimer {
    /// Length of one interval.
    pub interval_ms: u64,
    /// Time accumulated toward the next interval.
    pub elapsed_ms: u64,
}

impl PaintMeshesTimer {
    /// The interval is positive and the accumulator has not yet reached
    /// it.
    pub open spec fn wf(self) -> bool {
        0 < self.interval_ms && self.elapsed_ms < self.interval_ms
    }

    /// Advance the timer by `delta_ms` and return how many whole
    /// intervals elapsed during this tick; the remainder keeps
    /// accumulating toward the next interval.
    pub fn tick(&mut self, delta_ms: u64) -> (finished: u64)
        requires
            old(self).wf(),
            old(self).elapsed_ms + delta_ms <= u64::MAX,
        ensures
            final(self).wf(),
            final(self).interval_ms == old(self).interval_ms,
            final(self).elapsed_ms == (old(self).elapsed_ms + delta_ms) % (
            old(self).interval_ms as int),
            finished == (old(self).elapsed_ms + delta_ms) / (old(self).interval_ms as int),
    {
        let total: u64 = self.elapsed_ms + delta_ms;
        let finished: u64 = total / self.interval_ms;
        proof {
            lemma_mod_bound(total as int, self.interval_ms as int);
        }
        self.elapsed_ms = total % self.interval_ms;
        finished
    }
}

impl Default for PaintMeshesTimer {
    /// A fresh repeating timer of a tenth of a second.
    fn default() -> (r: PaintMeshesTimer)
        ensures
            r.interval_ms == 100,
            r.elapsed_ms == 0,
            r.wf(),
    {
        PaintMeshesTimer { interval_ms: 100, elapsed_ms: 0 }
    }
}

/// The paint gate: the timer advances only while the paint input is held,
/// so releasing the input pauses progress toward the next interval rather
/// than resetting it. Returns how many intervals finished this frame.
pub fn tick_paint_meshes_timer(timer: &mut PaintMeshesTimer, delta_ms: u64, paint_held: bool) -> (
    finished: u64)
    requires
        old(timer).wf(),
        old(timer).elapsed_ms + delta_ms <= u64::MAX,
    ensures
        final(timer).wf(),
        final(timer).interval_ms == old(timer).interval_ms,
        paint_held ==> final(timer).elapsed_ms == (old(timer).elapsed_ms + delta_ms) % (
        old(timer).interval_ms as int),
        paint_held ==> finished == (old(timer).elapsed_ms + delta_ms) / (
        old(timer).interval_ms as int),
        !paint_held ==> *final(timer) == *old(timer) && finished == 0,
{
    if paint_held {
        timer.tick(delta_ms)
    } else {
        0
    }
}

/// The canvas: the single texture that every painted mesh is textured
/// with. The texture's pixels live in the host engine; here the canvas
/// records how many times it has been overwritten wholesale, which is
/// once per completed capture.
#[derive(Clone, Copy, Debug, PartialEq, Eq, Structural)]
pub struct PaintSkiesCanvas {
    /// Number of captures copied into the canvas so far.
    pub captures: u64,
}

impl PaintSkiesCanvas {
    /// Overwrite the canvas with a freshly captured image.
    pub fn save_screenshot_to_canvas(&mut self)
        requires
            old(self).captures < u64::MAX,
        ensures
            final(self).captures == old(self).captures + 1,
    {
        self.captures = self.captures + 1;
    }
}

/// One paintable mesh as the engine sees it this pass: the entity that
/// carries it, and what the cameras reported for each of its triangles.
/// `triangles` is `None` when the mesh asset cannot be resolved or its
/// geometry is not a triangle list; such an entity is skipped silently
/// for this pass and re-queried on the next one.
#[derive(Debug)]
pub struct PaintableMesh {
    /// The entity whose mesh this is.
    pub entity: u64,
    /// Camera reports for each triangle, in triangle order.
    pub triangles: Option<Vec<TriangleSight>>,
}

impl PaintableMesh {
    /// Every reported coordinate lies within the engine's bound.
    pub open spec fn in_world(self) -> bool {
        self.triangles is Some ==> forall|j: int|
            0 <= j < self.triangles->Some_0@.len() ==> (
            #[trigger] self.triangles->Some_0@[j]).in_world()
    }
}

/// A mesh produced by painting a paintable triangle: the provenance
/// triple of the original, plus the centroid to place it at and the
/// re-centered triangle that becomes its geometry.
#[derive(Clone, Copy, Debug)]
pub struct PaintedMesh {
    /// The entity whose mesh was used to paint this mesh.
    pub painted_from: u64,
    /// The triangle of the original mesh that was used to paint this mesh.
    pub triangle_index: usize,
    /// The layer that this mesh was painted on.
    pub paint_layer: LayerIndex,
    /// Where the painted mesh is placed.
    pub centroid: Vec3Fx,
    /// The centroid-centered triangle with its UVs.
    pub triangle: TriangleWithUvs,
}

/// The painted mesh recorded for triangle `j` of `entity` when its
/// projection came out as `tw`.
pub open spec fn painted_mesh_spec(entity: u64, j: int, layer: LayerIndex, tw: TriangleWithUvs)
    -> PaintedMesh {
    PaintedMesh {
        painted_from: entity,
        triangle_index: j as usize,
        paint_layer: layer,
        centroid: tw.centered_spec().0,
        triangle: tw.centered_spec().1,
    }
}

/// The painted meshes produced by the first `j` triangles of one entity,
/// in triangle order: one per triangle whose projection succeeds.
pub open spec fn painted_prefix_spec(
    entity: u64,
    tris: Seq<TriangleSight>,
    distance: int,
    layer: LayerIndex,
    j: int,
) -> Seq<PaintedMesh>
    decreases j,
{
    if j <= 0 {
        Seq::empty()
    } else {
        let rest = painted_prefix_spec(entity, tris, distance, layer, j - 1);
        match project_triangle_spec(tris[j - 1], distance) {
            Some(tw) => rest.push(painted_mesh_spec(entity, j - 1, layer, tw)),
            None => rest,
        }
    }
}

/// The painted meshes one paintable entity contributes to a pass: none
/// when its mesh cannot be resolved, else one per projectable triangle.
pub open spec fn painted_for_mesh_spec(m: PaintableMesh, distance: int, layer: LayerIndex)
    -> Seq<PaintedMesh> {
    match m.triangles {
        Some(tris) => painted_prefix_spec(m.entity, tris@, distance, layer, tris@.len() as int),
        None => Seq::empty(),
    }
}

/// Everything one pass paints: each mesh's contribution, in mesh order.
pub open spec fn paint_pass_spec(ms: Seq<PaintableMesh>, distance: int, layer: LayerIndex)
    -> Seq<PaintedMesh>
    decreases ms.len(),
{
    if ms.len() == 0 {
        Seq::empty()
    } else {
        paint_pass_spec(ms.drop_last(), distance, layer) + painted_for_mesh_spec(
            ms.last(),
            distance,
            layer,
        )
    }
}

/// One full paint pass: project every triangle of every resolvable
/// paintable mesh at this layer's distance, record a painted mesh for
/// each success, and increment the layer index by exactly one — also
/// when nothing at all could be painted.
pub fn paint_meshes(
    meshes: &Vec<PaintableMesh>,
    settings: &PaintLayerSettings,
    layer_index: &mut LayerIndex,
) -> (painted: Vec<PaintedMesh>)
    requires
        settings.wf(),
        old(layer_index).0 < u32::MAX,
        forall|i: int| 0 <= i < meshes@.len() ==> (#[trigger] meshes@[i]).in_world(),
    ensures
        final(layer_index).0 == old(layer_index).0 + 1,
        painted@ == paint_pass_spec(
            meshes@,
            layer_distance_spec(*settings, old(layer_index).0 as nat),
            *old(layer_index),
        ),
{
    let layer = *layer_index;
    let ghost d = layer_distance_spec(*settings, layer.0 as nat);
    let distance = layer_distance(settings, layer);
    let mut painted: Vec<PaintedMesh> = Vec::new();
    let mut i: usize = 0;
    while i < meshes.len()
        invariant
            i <= meshes@.len(),
            settings.wf(),
            distance == d,
            0 <= distance <= WORLD_BOUND,
            forall|k: int| 0 <= k < meshes@.len() ==> (#[trigger] meshes@[k]).in_world(),
            painted@ == paint_pass_spec(meshes@.take(i as int), d as int, layer),
        decreases meshes@.len() - i,
    {
        match &meshes[i].triangles {
            None => {},
            Some(tris) => {
                let entity = meshes[i].entity;
                let mut j: usize = 0;
                while j < tris.len()
                    invariant
                        j <= tris@.len(),
                        distance == d,
                        0 <= distance <= WORLD_BOUND,
                        meshes@[i as int].in_world(),
                        i < meshes@.len(),
                        meshes@[i as int].triangles == Some(*tris),
                        entity == meshes@[i as int].entity,
                        painted@ == paint_pass_spec(meshes@.take(i as int), d as int, layer)
                            + painted_prefix_spec(entity, tris@, d as int, layer, j as int),
                    decreases tris@.len() - j,
                {
                    proof {
                        assert(meshes@[i as int].triangles->Some_0@ == tris@);
                        assert((meshes@[i as int].triangles->Some_0@[j as int]).in_world());
                    }
                    match project_triangle(&tris[j], distance) {
                        Some(tw) => {
                            let (centroid, centered) = tw.centered();
                            painted.push(
                                PaintedMesh {
                                    painted_from: entity,
                                    triangle_index: j,
                                    paint_layer: layer,
                                    centroid,
                                    triangle: centered,
                                },
                            );
                            proof {
                                let m = painted_mesh_spec(entity, j as int, layer, tw);
                                assert(project_triangle_spec(tris@[j as int], d as int)
                                    == Some(tw));
                                assert(painted_prefix_spec(entity, tris@, d as int, layer,
                                    j as int + 1) == painted_prefix_spec(entity, tris@, d as int,
                                    layer, j as int).push(m));
                                assert(centroid == tw.centered_spec().0);
                                assert(centered == tw.centered_spec().1);
                                assert(painted@.last() == m);
                                assert(painted@ =~= paint_pass_spec(
                                    meshes@.take(i as int),
                                    d as int,
                                    layer,
                                ) + painted_prefix_spec(
                                    entity,
                                    tris@,
                                    d as int,
                                    layer,
                                    j as int + 1,
                                ));
                            }
                        },
                        None => {
                            proof {
                                assert(painted_prefix_spec(entity, tris@, d as int, layer,
                                    j as int + 1) == painted_prefix_spec(entity, tris@, d as int,
                                    layer, j as int));
                            }
                        },
                    }
                    j = j + 1;
                }
                proof {
                    assert(painted_for_mesh_spec(meshes@[i as int], d as int, layer)
                        == painted_prefix_spec(entity, tris@, d as int, layer, tris@.len() as int));
                }
            },
        }
        i = i + 1;
        proof {
            lemma_paint_pass_take_step(meshes@, d as int, layer, i as int);
            if meshes@[i - 1].triangles is None {
                assert(painted@ == paint_pass_spec(meshes@.take(i as int), d as int, layer));
            }
        }
    }
    proof {
        assert(meshes@.take(meshes@.len() as int) =~= meshes@);
    }
    layer_index.0 = layer_index.0 + 1;
    painted
}

/// Where a paint pass stands.
#[derive(Clone, Copy, Debug, PartialEq, Eq, Structural)]
pub enum PaintPhase {
    /// Waiting for the paint gate.
    Idle,
    /// A capture request is out; waiting for its completion.
    Capturing,
}

/// The whole capture protocol: its timer, the pass phase, the layer
/// settings and index, and the canvas. Each frame ticks its timer; when an
/// interval elapses in the idle phase, one capture request fires; when
/// the capture completes, the canvas is overwritten first and the
/// paintable triangles are painted from it second, and the layer index
/// increments by exactly one.
#[derive(Debug)]
pub struct PaintPipeline {
    /// The paint gate timer.
    pub timer: PaintMeshesTimer,
    /// Where the current pass stands.
    pub phase: PaintPhase,
    /// The distance policy's constants.
    pub settings: PaintLayerSettings,
    /// Completed paint passes so far.
    pub layer_index: LayerIndex,
    /// The shared canvas texture's bookkeeping.
    pub canvas: PaintSkiesCanvas,
}

impl PaintPipeline {
    /// The timer and the settings are well formed.
    pub open spec fn wf(self) -> bool {
        self.timer.wf() && self.settings.wf()
    }

    /// A pipeline that has painted nothing yet, with the given settings.
    pub fn new(settings: PaintLayerSettings) -> (r: PaintPipeline)
        requires
            settings.wf(),
        ensures
            r.wf(),
            r.phase is Idle,
            r.layer_index.0 == 0,
            r.canvas.captures == 0,
            r.settings == settings,
            r.timer == (PaintMeshesTimer { interval_ms: 100u64, elapsed_ms: 0u64 }),
    {
        PaintPipeline {
            timer: PaintMeshesTimer::default(),
            phase: PaintPhase::Idle,
            settings,
            layer_index: LayerIndex(0),
            canvas: PaintSkiesCanvas { captures: 0 },
        }
    }

    /// One frame of the paint gate: advance the timer while the paint input is
    /// held, and fire exactly one capture request when an interval
    /// elapses while no pass is in flight. Returns whether a capture
    /// request fires this frame.
    pub fn frame(&mut self, delta_ms: u64, paint_held: bool) -> (request_capture: bool)
        requires
            old(self).wf(),
            old(self).timer.elapsed_ms + delta_ms <= u64::MAX,
        ensures
            final(self).wf(),
            final(self).settings == old(self).settings,
            final(self).layer_index == old(self).layer_index,
            final(self).canvas == old(self).canvas,
            final(self).timer.interval_ms == old(self).timer.interval_ms,
            paint_held ==> final(self).timer.elapsed_ms == (old(self).timer.elapsed_ms
                + delta_ms) % (old(self).timer.interval_ms as int),
            !paint_held ==> final(self).timer == old(self).timer,
            request_capture <==> (paint_held && old(self).phase is Idle && (old(
            self).timer.elapsed_ms + delta_ms) / (old(self).timer.interval_ms as int) > 0),
            final(self).phase == (if request_capture {
                PaintPhase::Capturing
            } else {
                old(self).phase
            }),
    {
        let finished = tick_paint_meshes_timer(&mut self.timer, delta_ms, paint_held);
        if finished > 0 && matches!(self.phase, PaintPhase::Idle) {
            self.phase = PaintPhase::Capturing;
            true
        } else {
            false
        }
    }

    /// The outstanding capture completed: overwrite the canvas with the
    /// captured image first, then paint every paintable triangle from it,
    /// return to idle and move to the next layer. The canvas overwrite is
    /// sequenced before the painting, so the new meshes show this pass's
    /// capture, not the last one's.
    pub fn capture_complete(&mut self, meshes: &Vec<PaintableMesh>) -> (painted: Vec<PaintedMesh>)
        requires
            old(self).wf(),
            old(self).phase is Capturing,
            old(self).layer_index.0 < u32::MAX,
            old(self).canvas.captures < u64::MAX,
            forall|i: int| 0 <= i < meshes@.len() ==> (#[trigger] meshes@[i]).in_world(),
        ensures
            final(self).wf(),
            final(self).settings == old(self).settings,
            final(self).timer == old(self).timer,
            final(self).phase is Idle,
            final(self).canvas.captures == old(self).canvas.captures + 1,
            final(self).layer_index.0 == old(self).layer_index.0 + 1,
            painted@ == paint_pass_spec(
                meshes@,
                layer_distance_spec(old(self).settings, old(self).layer_index.0 as nat),
                old(self).layer_index,
            ),
    {
        self.canvas.save_screenshot_to_canvas();
        let painted = paint_meshes(meshes, &self.settings, &mut self.layer_index);
        self.phase = PaintPhase::Idle;
        painted
    }
}

/// Taking one more mesh extends a pass by exactly that mesh's
/// contribution.
proof fn lemma_paint_pass_take_step(
    ms: Seq<PaintableMesh>,
    distance: int,
    layer: LayerIndex,
    i: int,
)
    requires
        0 < i <= ms.len(),
    ensures
        paint_pass_spec(ms.take(i), distance, layer) == paint_pass_spec(
            ms.take(i - 1),
            distance,
            layer,
        ) + painted_for_mesh_spec(ms[i - 1], distance, layer),
{
    assert(ms.take(i).drop_last() =~= ms.take(i - 1));
    assert(ms.take(i).last() == ms[i - 1]);
}

} // verus!
