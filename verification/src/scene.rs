//! The scene-graph walker.
//!
//! When a level's scene has been instantiated, its nodes are walked in
//! a fixed order and each node's extras text is parsed and interpreted
//! on its own: a malformed payload costs that node its extras and
//! nothing else. The walker also picks the spawn point and finds the
//! endpoint markers a moving platform needs.

use vstd::prelude::*;

use crate::ObjectState;
use crate::extras::{NodeEdits, spec_empty_payload, spec_interpret_node, ExtrasPayload,
    interpret_node};
use crate::json::{spec_parse_extras, parse_extras};
use crate::math::{Pose, Vec3i};
use crate::platforms::StartEnd;

verus! {

/// One node of an instantiated scene, in the engine's enumeration.
///
/// Nodes stand in a fixed list in pre-order: every node's parent comes
/// before it, so the list order is the deterministic "first
/// encountered" order the walker promises.
#[derive(Clone, PartialEq, Eq, Debug)]
pub struct SceneNode {
    /// The engine's entity identifier for this node.
    pub id: u64,
    /// Index of the parent node in the same list, absent for a root.
    pub parent: Option<usize>,
    /// The raw authored extras text, if the node carries any.
    pub extras: Option<String>,
    /// Whether the node has render-mesh geometry.
    pub has_mesh: bool,
    /// Whether the node carries a plain standard material.
    pub has_standard_material: bool,
    /// Translation relative to the parent, in milli-units.
    pub local_translation: Vec3i,
    /// The node's world pose at instantiation time.
    pub world_pose: Pose,
}

/// Parents precede their children in the node list.
pub open spec fn wf_scene(nodes: Seq<SceneNode>) -> bool {
    forall|i: int|
        0 <= i < nodes.len() ==> (match (#[trigger] nodes[i]).parent {
            Some(p) => p < i,
            None => true,
        })
}

/// What the walker decided for one node.
#[derive(Clone, Copy, PartialEq, Eq, Structural, Debug)]
pub struct NodeResult {
    /// The node carried extras text that does not fit the payload
    /// grammar; its extras were skipped and logged.
    pub malformed: bool,
    /// The structural edits the node's entity gets.
    pub edits: NodeEdits,
}

/// How one node is processed, from that node alone: its extras text is
/// parsed when present — a missing text means an empty payload, a
/// malformed one is noted and treated as empty — and the payload is
/// interpreted against the node's own geometry, material and pose.
pub open spec fn spec_process_node(n: SceneNode) -> NodeResult {
    match n.extras {
        None => NodeResult {
            malformed: false,
            edits: spec_interpret_node(
                spec_empty_payload(),
                n.has_mesh,
                n.has_standard_material,
                n.world_pose,
            ),
        },
        Some(text) => match spec_parse_extras(text@) {
            Some(p) => NodeResult {
                malformed: false,
                edits: spec_interpret_node(p, n.has_mesh, n.has_standard_material, n.world_pose),
            },
            None => NodeResult {
                malformed: true,
                edits: spec_interpret_node(
                    spec_empty_payload(),
                    n.has_mesh,
                    n.has_standard_material,
                    n.world_pose,
                ),
            },
        },
    }
}

/// A whole scene processed: each node on its own.
pub open spec fn spec_process_scene(nodes: Seq<SceneNode>) -> Seq<NodeResult> {
    nodes.map(|i: int, n: SceneNode| spec_process_node(n))
}

/// Process one node.
pub fn process_node(n: &SceneNode) -> (r: NodeResult)
    ensures
        r == spec_process_node(*n),
{
    let (malformed, payload): (bool, ExtrasPayload) = match &n.extras {
        None => (false, ExtrasPayload::empty()),
        Some(text) => match parse_extras(text.as_str()) {
            Some(p) => (false, p),
            None => (true, ExtrasPayload::empty()),
        },
    };
    NodeResult {
        malformed,
        edits: interpret_node(&payload, n.has_mesh, n.has_standard_material, n.world_pose),
    }
}

/// Walk an instantiated scene: every node is processed independently,
/// in list order.
pub fn process_scene(nodes: &Vec<SceneNode>) -> (results: Vec<NodeResult>)
    ensures
        results@ == spec_process_scene(nodes@),
{
    let mut results: Vec<NodeResult> = Vec::new();
    let mut i: usize = 0;
    while i < nodes.len()
        invariant
            i <= nodes.len(),
            results@ == spec_process_scene(nodes@).take(i as int),
        decreases nodes.len() - i,
    {
        results.push(process_node(&nodes[i]));
        assert(results@ =~= spec_process_scene(nodes@).take(i + 1 as int));
        i += 1;
    }
    assert(spec_process_scene(nodes@).take(nodes@.len() as int) =~= spec_process_scene(nodes@));
    results
}

/// Each node's outcome depends on that node alone.
pub proof fn lemma_node_processing_independent(nodes: Seq<SceneNode>, i: int)
    requires
        0 <= i < nodes.len(),
    ensures
        spec_process_scene(nodes)[i] == spec_process_node(nodes[i]),
{
}

/// A bad node is isolated: in two scenes that differ only at one node
/// — say one whose extras text is malformed — every other node's
/// outcome is identical.
pub proof fn lemma_malformed_node_isolated(a: Seq<SceneNode>, b: Seq<SceneNode>, k: int)
    requires
        a.len() == b.len(),
        forall|j: int| 0 <= j < a.len() && j != k ==> a[j] == b[j],
    ensures
        forall|j: int|
            0 <= j < a.len() && j != k ==> spec_process_scene(a)[j] == spec_process_scene(b)[j],
{
}

/// The index of the first node the walker marks as the spawn point.
pub open spec fn spec_first_spawn_point(results: Seq<NodeResult>, i: int) -> Option<int>
    decreases results.len() - i,
{
    if i < 0 || i >= results.len() {
        None
    } else if results[i].edits.spawn_player {
        Some(i)
    } else {
        spec_first_spawn_point(results, i + 1)
    }
}

/// Pick the spawn point: the first node, in list order, whose payload
/// set the spawn flag. With several spawn points authored, the first
/// wins; with none, there is no spawn.
pub fn first_spawn_point(results: &Vec<NodeResult>) -> (r: Option<usize>)
    ensures
        (match r {
            Some(i) => spec_first_spawn_point(results@, 0) == Some(i as int) && i < results.len(),
            None => spec_first_spawn_point(results@, 0) is None,
        }),
{
    let mut i: usize = 0;
    while i < results.len()
        invariant
            i <= results.len(),
            spec_first_spawn_point(results@, 0) == spec_first_spawn_point(results@, i as int),
        decreases results.len() - i,
    {
        if results[i].edits.spawn_player {
            return Some(i);
        }
        i += 1;
    }
    None
}

/// Whether node `j` lies in the subtree rooted at `anc` (including
/// `anc` itself), following parent links that only ever point
/// backwards in the list.
pub open spec fn in_subtree(nodes: Seq<SceneNode>, anc: int, j: int) -> bool
    decreases j,
{
    if j == anc {
        true
    } else if 0 <= j < nodes.len() {
        match nodes[j].parent {
            Some(p) => if p < j {
                in_subtree(nodes, anc, p as int)
            } else {
                false
            },
            None => false,
        }
    } else {
        false
    }
}

/// Whether node `j` lies in the subtree rooted at `anc`.
fn in_subtree_exec(nodes: &Vec<SceneNode>, anc: usize, j: usize) -> (r: bool)
    requires
        j < nodes.len(),
    ensures
        r == in_subtree(nodes@, anc as int, j as int),
    decreases j,
{
    if j == anc {
        true
    } else {
        match nodes[j].parent {
            Some(p) => if p < j {
                in_subtree_exec(nodes, anc, p)
            } else {
                false
            },
            None => false,
        }
    }
}

/// The first node at or after `j` — other than the platform itself and
/// the subtree root — standing in the subtree under `par` and marked
/// with the wanted endpoint.
pub open spec fn spec_first_marker(
    nodes: Seq<SceneNode>,
    results: Seq<NodeResult>,
    par: int,
    platform: int,
    want: StartEnd,
    j: int,
) -> Option<int>
    decreases nodes.len() - j,
{
    if j < 0 || j >= nodes.len() || j >= results.len() {
        None
    } else if j != platform && j != par && in_subtree(nodes, par, j)
        && results[j].edits.start_end == Some(want) {
        Some(j)
    } else {
        spec_first_marker(nodes, results, par, platform, want, j + 1)
    }
}

/// Find the first endpoint marker of the wanted kind for a platform
/// node, searching the descendants of the platform's parent in list
/// order.
fn find_marker(
    nodes: &Vec<SceneNode>,
    results: &Vec<NodeResult>,
    par: usize,
    platform: usize,
    want: StartEnd,
) -> (r: Option<usize>)
    requires
        results.len() == nodes.len(),
    ensures
        (match r {
            Some(j) => spec_first_marker(nodes@, results@, par as int, platform as int, want, 0)
                == Some(j as int) && j < nodes.len(),
            None => spec_first_marker(
                nodes@,
                results@,
                par as int,
                platform as int,
                want,
                0,
            ) is None,
        }),
{
    let mut j: usize = 0;
    while j < nodes.len()
        invariant
            results.len() == nodes.len(),
            j <= nodes.len(),
            spec_first_marker(nodes@, results@, par as int, platform as int, want, 0)
                == spec_first_marker(nodes@, results@, par as int, platform as int, want, j as int),
        decreases nodes.len() - j,
    {
        if j != platform && j != par && in_subtree_exec(nodes, par, j) {
            let matches_want = match (results[j].edits.start_end, want) {
                (Some(StartEnd::Start), StartEnd::Start) => true,
                (Some(StartEnd::End), StartEnd::End) => true,
                _ => false,
            };
            if matches_want {
                return Some(j);
            }
        }
        j += 1;
    }
    None
}

/// The local translations of a platform's endpoint markers: the first
/// `Start` and the first `End` found among the descendants of the
/// platform's parent, in list order. A root platform, or one with a
/// marker missing, stays unresolved.
pub open spec fn spec_platform_markers(
    nodes: Seq<SceneNode>,
    results: Seq<NodeResult>,
    platform: int,
) -> (Option<Vec3i>, Option<Vec3i>) {
    match nodes[platform].parent {
        None => (None, None),
        Some(par) => {
            let start = match spec_first_marker(
                nodes,
                results,
                par as int,
                platform,
                StartEnd::Start,
                0,
            ) {
                Some(j) => Some(nodes[j].local_translation),
                None => None,
            };
            let end = match spec_first_marker(
                nodes,
                results,
                par as int,
                platform,
                StartEnd::End,
                0,
            ) {
                Some(j) => Some(nodes[j].local_translation),
                None => None,
            };
            (start, end)
        },
    }
}

/// Discover a platform's motion endpoints from its sibling markers.
pub fn find_platform_markers(
    nodes: &Vec<SceneNode>,
    results: &Vec<NodeResult>,
    platform: usize,
) -> (r: (Option<Vec3i>, Option<Vec3i>))
    requires
        results.len() == nodes.len(),
        platform < nodes.len(),
    ensures
        r == spec_platform_markers(nodes@, results@, platform as int),
{
    match nodes[platform].parent {
        None => (None, None),
        Some(par) => {
            let start = match find_marker(nodes, results, par, platform, StartEnd::Start) {
                Some(j) => Some(nodes[j].local_translation),
                None => None,
            };
            let end = match find_marker(nodes, results, par, platform, StartEnd::End) {
                Some(j) => Some(nodes[j].local_translation),
                None => None,
            };
            (start, end)
        },
    }
}

/// Build the runtime object record the tick controllers track for a
/// node, from the edits its payload resolved to: at rest, alive, with
/// its policy, captured pose and marker tags taken from the edits.
pub fn object_from_node(id: u64, edits: &NodeEdits, world_pose: Pose) -> (o: ObjectState)
    ensures
        o == (ObjectState {
            id,
            out_of_bounds_marker: false,
            behavior: edits.out_of_bounds,
            original: edits.original_transform,
            pose: world_pose,
            linear_velocity: Vec3i { x: 0, y: 0, z: 0 },
            angular_velocity: Vec3i { x: 0, y: 0, z: 0 },
            is_player: false,
            is_target: edits.target,
            is_goal: edits.goal,
            alive: true,
        }),
{
    ObjectState {
        id,
        out_of_bounds_marker: false,
        behavior: edits.out_of_bounds,
        original: edits.original_transform,
        pose: world_pose,
        linear_velocity: Vec3i { x: 0, y: 0, z: 0 },
        angular_velocity: Vec3i { x: 0, y: 0, z: 0 },
        is_player: false,
        is_target: edits.target,
        is_goal: edits.goal,
        alive: true,
    }
}

} // verus!
