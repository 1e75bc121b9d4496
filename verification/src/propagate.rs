//! Paintable propagation: when a loaded sub-scene becomes ready and its
//! root is already marked paintable, every descendant of that root
//! becomes paintable too.
//!
//! A scene instance is a flat list of nodes in spawn order; each node
//! names its parent by an earlier index, so descendant-hood is well
//! founded by construction.

use vstd::prelude::*;

verus! {

/// One entity of a scene instance: its parent in the hierarchy (an
/// earlier node, or none for the root) and whether it carries the
/// paintable marker.
#[derive(Clone, Copy, Debug)]
pub struct SceneNode {
    /// Index of the parent node, `None` at a root.
    pub parent: Option<usize>,
    /// Whether the paintable marker is attached.
    pub paintable: bool,
}

/// Parents come before their children.
pub open spec fn scene_wf(nodes: Seq<SceneNode>) -> bool {
    forall|i: int|
        0 <= i < nodes.len() ==> ((#[trigger] nodes[i]).parent is Some ==> nodes[i].parent->Some_0
            < i)
}

/// Whether node `i` is `root` itself or one of its descendants, walking
/// parent links.
pub open spec fn reaches(nodes: Seq<SceneNode>, root: int, i: int) -> bool
    decreases i,
{
    if i == root {
        true
    } else if 0 <= i < nodes.len() {
        match nodes[i].parent {
            Some(p) => 0 <= p < i && reaches(nodes, root, p as int),
            None => false,
        }
    } else {
        false
    }
}

/// The scene after propagation: if the root carries the marker, every
/// node that reaches the root carries it too; nothing else changes, and
/// no marker is ever removed.
pub open spec fn propagated(nodes: Seq<SceneNode>, root: int) -> Seq<SceneNode> {
    Seq::new(
        nodes.len(),
        |i: int|
            SceneNode {
                parent: nodes[i].parent,
                paintable: nodes[i].paintable || (nodes[root].paintable && reaches(
                    nodes,
                    root,
                    i,
                )),
            },
    )
}

/// A scene instance, ready to have markers propagated over it.
#[derive(Debug)]
pub struct Scene {
    /// The nodes, parents first.
    pub nodes: Vec<SceneNode>,
}

impl Scene {
    /// Parents come before their children.
    pub open spec fn wf(self) -> bool {
        scene_wf(self.nodes@)
    }
}

/// React to a scene instance becoming ready: if its root is marked
/// paintable, mark the root's whole subtree paintable. Re-marking an
/// already marked node changes nothing, and a root without the marker
/// makes this a no-op.
pub fn propagate_paintable_on_scenes(scene: &mut Scene, root: usize)
    requires
        old(scene).wf(),
        root < old(scene).nodes@.len(),
    ensures
        final(scene).wf(),
        final(scene).nodes@ == propagated(old(scene).nodes@, root as int),
{
    let ghost orig = scene.nodes@;
    if !scene.nodes[root].paintable {
        proof {
            assert(propagated(orig, root as int) =~= orig);
        }
        return ;
    }
    let n = scene.nodes.len();
    let mut reach: Vec<bool> = Vec::new();
    let mut out: Vec<SceneNode> = Vec::new();
    let mut k: usize = 0;
    while k < n
        invariant
            k <= n,
            n == orig.len(),
            scene.nodes@ == orig,
            scene_wf(orig),
            root < n,
            orig[root as int].paintable,
            reach@.len() == k,
            out@.len() == k,
            forall|m: int| 0 <= m < k ==> reach@[m] == reaches(orig, root as int, m),
            forall|m: int| 0 <= m < k ==> out@[m] == propagated(orig, root as int)[m],
        decreases n - k,
    {
        let node = scene.nodes[k];
        let reach_k: bool = if k == root {
            true
        } else {
            match node.parent {
                Some(p) => reach[p],
                None => false,
            }
        };
        proof {
            assert(reach_k == reaches(orig, root as int, k as int));
        }
        reach.push(reach_k);
        out.push(SceneNode { parent: node.parent, paintable: node.paintable || reach_k });
        k = k + 1;
    }
    scene.nodes = out;
    proof {
        assert(scene.nodes@ =~= propagated(orig, root as int));
        assert forall|i: int|
            0 <= i < scene.nodes@.len() implies ((#[trigger] scene.nodes@[i]).parent is Some
            ==> scene.nodes@[i].parent->Some_0 < i) by {
            assert(scene.nodes@[i].parent == orig[i].parent);
        }
    }
}

/// Propagation is idempotent: propagating a scene that has already been
/// propagated from the same root leaves it exactly as it was, so the set
/// of marked entities after two applications equals the set after one.
pub proof fn lemma_propagate_idempotent(nodes: Seq<SceneNode>, root: int)
    requires
        scene_wf(nodes),
        0 <= root < nodes.len(),
    ensures
        propagated(propagated(nodes, root), root) == propagated(nodes, root),
{
    let n1 = propagated(nodes, root);
    assert forall|i: int| #![trigger n1[i]] 0 <= i < n1.len() implies reaches(n1, root, i)
        == reaches(nodes, root, i) by {
        lemma_reaches_unchanged(nodes, n1, root, i);
    }
    assert(n1[root].paintable == nodes[root].paintable);
    assert(propagated(n1, root) =~= n1);
}

/// Walking parent links does not care about markers: two scenes with the
/// same parents agree on what reaches the root.
proof fn lemma_reaches_unchanged(a: Seq<SceneNode>, b: Seq<SceneNode>, root: int, i: int)
    requires
        a.len() == b.len(),
        forall|m: int| 0 <= m < a.len() ==> (#[trigger] b[m]).parent == a[m].parent,
    ensures
        reaches(b, root, i) == reaches(a, root, i),
    decreases i,
{
    if i != root && 0 <= i < a.len() {
        match a[i].parent {
            Some(p) => {
                if 0 <= p < i {
                    lemma_reaches_unchanged(a, b, root, p as int);
                }
            },
            None => {},
        }
    }
}

} // verus!
