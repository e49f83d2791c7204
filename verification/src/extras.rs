//! The authored per-node payload and its interpretation.
//!
//! Every scene node may carry a small metadata record put there by the
//! level author. The interpreter turns one parsed record into the
//! structural edits that node's live entity gets: physics collider and
//! body, gameplay markers, platform behavior, material assignment, and
//! the captured original pose a respawning object later returns to.

use vstd::prelude::*;

use crate::OutOfBoundsBehavior;
use crate::blender_types::BMaterial;
use crate::materials::{ColorReveal, MaterialAction, spec_material_action, material_action};
use crate::math::{Pose, Vec3i};
use crate::platforms::{AnimationOffsetTimer, PlatformAnimationOffset, PlatformKind, StartEnd};

verus! {

/// How an entity takes part in the physics simulation.
#[derive(Clone, Copy, PartialEq, Eq, Structural, Debug)]
pub enum RigidBodyKind {
    Static,
    Dynamic,
    Kinematic,
}

/// How a node's collision shape is derived.
#[derive(Clone, Copy, PartialEq, Eq, Structural, Debug)]
pub enum ColliderKind {
    /// Build a triangle-mesh collider from the node's render mesh.
    TrimeshFromMesh,
    /// An axis-aligned box sized by the payload's `cube_size`.
    Cuboid,
}

/// One node's authored metadata, fully parsed. Absent optional fields
/// and false flags mean "not set"; `animation_offset` is a start delay
/// in milliseconds, zero when unset.
#[derive(Clone, Copy, PartialEq, Eq, Structural, Debug)]
pub struct ExtrasPayload {
    pub rigid_body: Option<RigidBodyKind>,
    pub collider: Option<ColliderKind>,
    /// Box extents in milli-units; required when `collider` asks for a
    /// cuboid.
    pub cube_size: Option<Vec3i>,
    pub is_spawn_point: bool,
    pub color_reveal: Option<ColorReveal>,
    pub out_of_bounds_behavior: Option<OutOfBoundsBehavior>,
    pub hold_point: bool,
    pub goal: bool,
    pub target: bool,
    pub material: Option<BMaterial>,
    pub platform_behavior: Option<PlatformKind>,
    pub start_end: Option<StartEnd>,
    pub animation_offset: u64,
}

/// The payload of a node that declares nothing.
pub open spec fn spec_empty_payload() -> ExtrasPayload {
    ExtrasPayload {
        rigid_body: None,
        collider: None,
        cube_size: None,
        is_spawn_point: false,
        color_reveal: None,
        out_of_bounds_behavior: None,
        hold_point: false,
        goal: false,
        target: false,
        material: None,
        platform_behavior: None,
        start_end: None,
        animation_offset: 0,
    }
}

impl ExtrasPayload {
    /// The payload of a node that declares nothing.
    pub fn empty() -> (p: ExtrasPayload)
        ensures
            p == spec_empty_payload(),
    {
        ExtrasPayload {
            rigid_body: None,
            collider: None,
            cube_size: None,
            is_spawn_point: false,
            color_reveal: None,
            out_of_bounds_behavior: None,
            hold_point: false,
            goal: false,
            target: false,
            material: None,
            platform_behavior: None,
            start_end: None,
            animation_offset: 0,
        }
    }

    /// The mesh-channel slice of the payload.
    pub fn mesh_extras(&self) -> (m: crate::blender_types::BMeshExtras)
        ensures
            m.material == self.material,
            m.start_end == self.start_end,
            m.animation_offset == self.animation_offset,
    {
        crate::blender_types::BMeshExtras {
            material: self.material,
            start_end: self.start_end,
            animation_offset: self.animation_offset,
        }
    }
}

/// A collision shape the interpreter attaches.
#[derive(Clone, Copy, PartialEq, Eq, Structural, Debug)]
pub enum ColliderShape {
    /// A triangle-mesh collider derived from the node's render mesh.
    Trimesh,
    /// An axis-aligned box whose extents are exactly `size`.
    Cuboid { size: Vec3i },
}

/// Why a requested collider could not be attached. Both are per-node
/// authoring errors: the node keeps everything else it declared and
/// the rest of the scene is untouched.
#[derive(Clone, Copy, PartialEq, Eq, Structural, Debug)]
pub enum ColliderError {
    /// A mesh-derived collider was requested on a node without mesh
    /// geometry.
    TrimeshOnNonMeshNode,
    /// A cuboid collider was requested without `cube_size`.
    MissingCubeSize,
}

/// How the collider channel of one node resolved.
#[derive(Clone, Copy, PartialEq, Eq, Structural, Debug)]
pub enum ColliderResolution {
    /// The payload requested no collider.
    NotRequested,
    /// This shape is attached.
    Attached(ColliderShape),
    /// The request was invalid; nothing is attached.
    Failed(ColliderError),
}

/// The platform components one node gets: the behavior kind to be
/// resolved by the animation synthesizer, and the pending start-delay
/// countdown when the author asked for one.
#[derive(Clone, Copy, PartialEq, Eq, Structural, Debug)]
pub struct PlatformEdit {
    pub kind: PlatformKind,
    pub timer: Option<AnimationOffsetTimer>,
}

/// Every structural edit one node's payload resolves to.
#[derive(Clone, Copy, PartialEq, Eq, Structural, Debug)]
pub struct NodeEdits {
    pub collider: ColliderResolution,
    /// The physics body attached alongside: a platform is always
    /// kinematic, otherwise whatever the payload declared.
    pub rigid_body: Option<RigidBodyKind>,
    pub color_reveal: Option<ColorReveal>,
    pub out_of_bounds: Option<OutOfBoundsBehavior>,
    /// Captured world pose, present exactly for a respawning node; the
    /// capture happens during interpretation, before any collision can
    /// ask for it.
    pub original_transform: Option<Pose>,
    /// Ask the player-spawning collaborator to use this node.
    pub spawn_player: bool,
    pub hold_point: bool,
    pub goal: bool,
    pub target: bool,
    pub start_end: Option<StartEnd>,
    pub platform: Option<PlatformEdit>,
    pub material: MaterialAction,
}

/// How one node's collider channel resolves.
pub open spec fn spec_resolve_collider(
    collider: Option<ColliderKind>,
    cube_size: Option<Vec3i>,
    has_mesh: bool,
) -> ColliderResolution {
    match collider {
        None => ColliderResolution::NotRequested,
        Some(ColliderKind::TrimeshFromMesh) => if has_mesh {
            ColliderResolution::Attached(ColliderShape::Trimesh)
        } else {
            ColliderResolution::Failed(ColliderError::TrimeshOnNonMeshNode)
        },
        Some(ColliderKind::Cuboid) => match cube_size {
            Some(size) => ColliderResolution::Attached(ColliderShape::Cuboid { size }),
            None => ColliderResolution::Failed(ColliderError::MissingCubeSize),
        },
    }
}

/// The full interpretation of one node's payload, given whether the
/// node has render-mesh geometry, whether it carries a standard
/// material, and its current world pose.
pub open spec fn spec_interpret_node(
    p: ExtrasPayload,
    has_mesh: bool,
    has_standard_material: bool,
    world_pose: Pose,
) -> NodeEdits {
    NodeEdits {
        collider: spec_resolve_collider(p.collider, p.cube_size, has_mesh),
        rigid_body: if p.platform_behavior is Some {
            Some(RigidBodyKind::Kinematic)
        } else {
            p.rigid_body
        },
        color_reveal: p.color_reveal,
        out_of_bounds: p.out_of_bounds_behavior,
        original_transform: if p.out_of_bounds_behavior == Some(OutOfBoundsBehavior::Respawn) {
            Some(world_pose)
        } else {
            None
        },
        spawn_player: p.is_spawn_point,
        hold_point: p.hold_point,
        goal: p.goal,
        target: p.target,
        start_end: p.start_end,
        platform: match p.platform_behavior {
            Some(kind) => Some(
                PlatformEdit {
                    kind,
                    timer: if p.animation_offset > 0 {
                        Some(AnimationOffsetTimer(p.animation_offset))
                    } else {
                        None
                    },
                },
            ),
            None => None,
        },
        material: spec_material_action(p.material, has_standard_material),
    }
}

/// Interpret one node's parsed payload into the edits its entity gets.
///
/// Every failure here is node-scoped: an invalid collider request
/// resolves to a failed collider channel and costs the node nothing
/// else.
pub fn interpret_node(
    p: &ExtrasPayload,
    has_mesh: bool,
    has_standard_material: bool,
    world_pose: Pose,
) -> (edits: NodeEdits)
    ensures
        edits == spec_interpret_node(*p, has_mesh, has_standard_material, world_pose),
{
    let collider = match p.collider {
        None => ColliderResolution::NotRequested,
        Some(ColliderKind::TrimeshFromMesh) => if has_mesh {
            ColliderResolution::Attached(ColliderShape::Trimesh)
        } else {
            ColliderResolution::Failed(ColliderError::TrimeshOnNonMeshNode)
        },
        Some(ColliderKind::Cuboid) => match p.cube_size {
            Some(size) => ColliderResolution::Attached(ColliderShape::Cuboid { size }),
            None => ColliderResolution::Failed(ColliderError::MissingCubeSize),
        },
    };
    NodeEdits {
        collider,
        rigid_body: if p.platform_behavior.is_some() {
            Some(RigidBodyKind::Kinematic)
        } else {
            p.rigid_body
        },
        color_reveal: p.color_reveal,
        out_of_bounds: p.out_of_bounds_behavior,
        original_transform: match p.out_of_bounds_behavior {
            Some(OutOfBoundsBehavior::Respawn) => Some(world_pose),
            _ => None,
        },
        spawn_player: p.is_spawn_point,
        hold_point: p.hold_point,
        goal: p.goal,
        target: p.target,
        start_end: p.start_end,
        platform: match p.platform_behavior {
            Some(kind) => Some(
                PlatformEdit {
                    kind,
                    timer: PlatformAnimationOffset(p.animation_offset).timer(),
                },
            ),
            None => None,
        },
        material: material_action(p.material, has_standard_material),
    }
}

/// A cuboid collider's extents equal the authored `cube_size` exactly,
/// for every node that declares a cuboid collider with a size.
pub proof fn lemma_cuboid_collider_extents(
    p: ExtrasPayload,
    has_mesh: bool,
    has_standard_material: bool,
    world_pose: Pose,
    size: Vec3i,
)
    requires
        p.collider == Some(ColliderKind::Cuboid),
        p.cube_size == Some(size),
    ensures
        spec_interpret_node(p, has_mesh, has_standard_material, world_pose).collider
            == ColliderResolution::Attached(ColliderShape::Cuboid { size }),
{
}

} // verus!
