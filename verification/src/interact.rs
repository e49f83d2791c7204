//! The player's pickup-and-throw interaction.
//!
//! One "interact" input edge either grabs the nearest hit object or
//! throws the held one. The engine performs the shape cast, finds the
//! named anchors and applies the resulting edits; the library decides
//! what happens, so the decision is the same whatever the engine's
//! iteration order was.

use vstd::prelude::*;

use crate::math::{Pose, Vec3i};

verus! {

/// What the player currently holds: at most one object at a time.
#[derive(Clone, Copy, PartialEq, Eq, Structural, Debug)]
pub struct Holding(pub Option<u64>);

/// The decision one grab attempt comes to.
#[derive(Clone, Copy, PartialEq, Eq, Structural, Debug)]
pub enum GrabOutcome {
    /// Already holding something: nothing changes.
    AlreadyHolding,
    /// No "Hold" anchor entity exists in the scene: nothing changes.
    NoHoldAnchor,
    /// The shape cast hit nothing: nothing changes.
    NoHit,
    /// The hit object carries no hold-point anchor in its subtree:
    /// nothing changes.
    NoHoldPoint,
    /// Grab `target`: re-parent it under `anchor`, suspend its physics
    /// participation, and place it at `local_translation` relative to
    /// the anchor.
    Grabbed { target: u64, anchor: u64, local_translation: Vec3i },
}

/// Where a grabbed object sits relative to the hold anchor: the hold
/// point's height, mirrored downwards; the other axes are centred.
pub open spec fn spec_held_translation(hold_point: Vec3i) -> Vec3i {
    Vec3i { x: 0, y: (-hold_point.y) as i64, z: 0 }
}

/// The grab decision: grabbing while already holding is refused, as is
/// a missing hold anchor, a missing hit, or a hit without a hold
/// point; otherwise the hit object is grabbed.
pub open spec fn spec_grab(
    holding: Holding,
    hold_anchor: Option<u64>,
    hit: Option<u64>,
    hold_point: Option<Vec3i>,
) -> (GrabOutcome, Holding) {
    if holding.0 is Some {
        (GrabOutcome::AlreadyHolding, holding)
    } else {
        match hold_anchor {
            None => (GrabOutcome::NoHoldAnchor, holding),
            Some(anchor) => match hit {
                None => (GrabOutcome::NoHit, holding),
                Some(target) => match hold_point {
                    None => (GrabOutcome::NoHoldPoint, holding),
                    Some(hp) => (
                        GrabOutcome::Grabbed {
                            target,
                            anchor,
                            local_translation: spec_held_translation(hp),
                        },
                        Holding(Some(target)),
                    ),
                },
            },
        }
    }
}

/// Decide a grab attempt on an "interact" input edge.
///
/// `hold_anchor` is the entity named like the hold anchor, `hit` the
/// nearest shape-cast hit, and `hold_point` the local translation of
/// the hold-point anchor inside the hit object's subtree — each absent
/// when the engine found none.
pub fn raycast_player(
    holding: &Holding,
    hold_anchor: Option<u64>,
    hit: Option<u64>,
    hold_point: Option<Vec3i>,
) -> (r: (GrabOutcome, Holding))
    requires
        (match hold_point {
            Some(hp) => hp.in_bounds(),
            None => true,
        }),
    ensures
        r == spec_grab(*holding, hold_anchor, hit, hold_point),
{
    if holding.0.is_some() {
        return (GrabOutcome::AlreadyHolding, *holding);
    }
    match hold_anchor {
        None => (GrabOutcome::NoHoldAnchor, *holding),
        Some(anchor) => match hit {
            None => (GrabOutcome::NoHit, *holding),
            Some(target) => match hold_point {
                None => (GrabOutcome::NoHoldPoint, *holding),
                Some(hp) => (
                    GrabOutcome::Grabbed {
                        target,
                        anchor,
                        local_translation: Vec3i { x: 0, y: -hp.y, z: 0 },
                    },
                    Holding(Some(target)),
                ),
            },
        },
    }
}

/// The decision one throw attempt comes to.
#[derive(Clone, Copy, PartialEq, Eq, Structural, Debug)]
pub enum ReleaseOutcome {
    /// Holding nothing: nothing changes.
    NotHolding,
    /// Let go of `entity`: detach it, restore its physics
    /// participation, set its pose to its last world pose, hand it the
    /// player's velocity with no spin, and push it forward and up.
    Released { entity: u64, pose: Pose, linear_velocity: Vec3i, impulse: Vec3i },
}

/// The throw impulse: the player's forward direction, raised to a
/// fixed upward component and scaled four-fold along the ground plane.
pub open spec fn spec_throw_impulse(forward: Vec3i) -> Vec3i {
    Vec3i { x: (4 * forward.x) as i64, y: 5000, z: (4 * forward.z) as i64 }
}

/// The release decision: releasing while holding nothing is refused;
/// otherwise the held object is thrown from where it stands.
pub open spec fn spec_release(
    holding: Holding,
    held_world_pose: Pose,
    player_linear_velocity: Vec3i,
    player_forward: Vec3i,
) -> (ReleaseOutcome, Holding) {
    match holding.0 {
        None => (ReleaseOutcome::NotHolding, holding),
        Some(entity) => (
            ReleaseOutcome::Released {
                entity,
                pose: held_world_pose,
                linear_velocity: player_linear_velocity,
                impulse: spec_throw_impulse(player_forward),
            },
            Holding(None),
        ),
    }
}

/// Decide a throw attempt on an "interact" input edge.
///
/// `held_world_pose` is the held object's current world pose and
/// `player_forward` the player's forward direction in milli-units,
/// both read off the engine.
pub fn throw_held_item(
    holding: &Holding,
    held_world_pose: Pose,
    player_linear_velocity: Vec3i,
    player_forward: Vec3i,
) -> (r: (ReleaseOutcome, Holding))
    requires
        player_forward.in_bounds(),
    ensures
        r == spec_release(*holding, held_world_pose, player_linear_velocity, player_forward),
{
    match holding.0 {
        None => (ReleaseOutcome::NotHolding, *holding),
        Some(entity) => (
            ReleaseOutcome::Released {
                entity,
                pose: held_world_pose,
                linear_velocity: player_linear_velocity,
                impulse: Vec3i { x: 4 * player_forward.x, y: 5000, z: 4 * player_forward.z },
            },
            Holding(None),
        ),
    }
}

/// The state of one grabbable object, as the interaction edits see it.
#[derive(Clone, Copy, PartialEq, Eq, Structural, Debug)]
pub struct ItemState {
    pub id: u64,
    /// The entity this object hangs under, if any.
    pub parent: Option<u64>,
    /// False while the object is held and must not simulate on its
    /// own.
    pub physics_active: bool,
    /// Pose relative to the parent (world pose when there is none).
    pub pose: Pose,
    pub linear_velocity: Vec3i,
    pub angular_velocity: Vec3i,
}

/// A grab decision applied to one object: only a grab of that very
/// object changes it.
pub open spec fn spec_apply_grab(item: ItemState, outcome: GrabOutcome) -> ItemState {
    match outcome {
        GrabOutcome::Grabbed { target, anchor, local_translation } => if target == item.id {
            ItemState {
                parent: Some(anchor),
                physics_active: false,
                pose: Pose { translation: local_translation, yaw: 0 },
                ..item
            }
        } else {
            item
        },
        _ => item,
    }
}

/// Apply a grab decision to one object.
pub fn apply_grab(item: &mut ItemState, outcome: &GrabOutcome)
    ensures
        *final(item) == spec_apply_grab(*old(item), *outcome),
{
    match outcome {
        GrabOutcome::Grabbed { target, anchor, local_translation } => {
            if *target == item.id {
                item.parent = Some(*anchor);
                item.physics_active = false;
                item.pose = Pose { translation: *local_translation, yaw: 0 };
            }
        },
        _ => {},
    }
}

/// A release decision applied to one object: only a throw of that very
/// object changes it.
pub open spec fn spec_apply_release(item: ItemState, outcome: ReleaseOutcome) -> ItemState {
    match outcome {
        ReleaseOutcome::Released { entity, pose, linear_velocity, impulse } => if entity
            == item.id {
            ItemState {
                parent: None,
                physics_active: true,
                pose,
                linear_velocity,
                angular_velocity: Vec3i { x: 0, y: 0, z: 0 },
                ..item
            }
        } else {
            item
        },
        _ => item,
    }
}

/// Apply a release decision to one object. The impulse itself is the
/// physics engine's to integrate; the library fixes the object's pose
/// and velocities at the moment of release.
pub fn apply_release(item: &mut ItemState, outcome: &ReleaseOutcome)
    ensures
        *final(item) == spec_apply_release(*old(item), *outcome),
{
    match outcome {
        ReleaseOutcome::Released { entity, pose, linear_velocity, impulse: _ } => {
            if *entity == item.id {
                item.parent = None;
                item.physics_active = true;
                item.pose = *pose;
                item.linear_velocity = *linear_velocity;
                item.angular_velocity = Vec3i { x: 0, y: 0, z: 0 };
            }
        },
        _ => {},
    }
}

/// Grabbing while already holding an object is a no-op: the attempt is
/// refused, the held reference is unchanged, and no object's state —
/// in particular not the previously held object's — changes.
pub proof fn lemma_grab_while_holding_is_noop(
    holding: Holding,
    hold_anchor: Option<u64>,
    hit: Option<u64>,
    hold_point: Option<Vec3i>,
    item: ItemState,
)
    requires
        holding.0 is Some,
    ensures
        spec_grab(holding, hold_anchor, hit, hold_point) == (GrabOutcome::AlreadyHolding, holding),
        spec_apply_grab(item, spec_grab(holding, hold_anchor, hit, hold_point).0) == item,
{
}

/// Releasing while holding nothing is a no-op: the attempt is refused,
/// nothing is thrown, and no object's state changes.
pub proof fn lemma_release_while_empty_is_noop(
    held_world_pose: Pose,
    player_linear_velocity: Vec3i,
    player_forward: Vec3i,
    item: ItemState,
)
    ensures
        spec_release(Holding(None), held_world_pose, player_linear_velocity, player_forward) == (
            ReleaseOutcome::NotHolding,
            Holding(None),
        ),
        spec_apply_release(
            item,
            spec_release(Holding(None), held_world_pose, player_linear_velocity, player_forward).0,
        ) == item,
{
}

} // verus!
