//! Gameplay core of a small 3D platformer.
//!
//! The library holds the level-authoring-to-runtime translation
//! pipeline — per-node metadata ("extras") is parsed from its textual
//! form and turned into structural edits on the live scene — together
//! with the collision-driven controllers that run each tick: the
//! out-of-bounds respawn controller, the goal-progression controller,
//! and the player's pickup-and-throw interaction. The engine around
//! the library (rendering, physics integration, asset loading, input)
//! hands events and values in as plain data and applies the edits the
//! library decides on.
//!
//! Lengths are fixed-point integers in milli-units and angles in
//! milliradians (see [`math`]); the engine converts at the boundary.

pub mod blender_types;
pub mod extras;
pub mod interact;
pub mod json;
pub mod materials;
pub mod level_spawn;
pub mod platforms;
pub mod scene;
pub mod math;

use vstd::prelude::*;

use crate::math::{Pose, Vec3i};

verus! {

/// Where the application stands: loading its assets, or playing.
#[derive(Clone, Copy, PartialEq, Eq, Structural, Debug, Default)]
pub enum AppState {
    #[default]
    AppLoad,
    Playing,
}

/// How long the artificial start-up task runs, in milliseconds.
pub const DURATION_LONG_TASK_IN_MS: u64 = 4000;

/// The start-up gate: done once the given elapsed time, in
/// milliseconds, exceeds the fixed task duration.
pub fn track_fake_long_task(elapsed_ms: u64) -> (done: bool)
    ensures
        done == (elapsed_ms > DURATION_LONG_TASK_IN_MS),
{
    elapsed_ms > DURATION_LONG_TASK_IN_MS
}

/// What happens to a tracked object when it touches the void sensor.
#[derive(Clone, Copy, PartialEq, Eq, Structural, Debug)]
pub enum OutOfBoundsBehavior {
    /// Restore the captured original pose and zero all motion.
    Respawn,
    /// Remove the object (and, in the engine, its whole subtree).
    Despawn,
}

/// The world pose captured when an out-of-bounds behavior is first
/// attached; immutable afterwards, read by the respawn controller.
#[derive(Clone, Copy, PartialEq, Eq, Structural, Debug)]
pub struct OriginalTransform(pub Pose);

/// Capture step run when an out-of-bounds behavior is attached to an
/// entity whose current world pose is `world_pose`: a `Respawn` entity
/// gets its pose captured, a `Despawn` entity needs none.
pub fn on_add_out_of_bounds_behavior(
    behavior: &OutOfBoundsBehavior,
    world_pose: Pose,
) -> (captured: Option<OriginalTransform>)
    ensures
        captured == (match behavior {
            OutOfBoundsBehavior::Respawn => Some(OriginalTransform(world_pose)),
            OutOfBoundsBehavior::Despawn => None::<OriginalTransform>,
        }),
{
    match behavior {
        OutOfBoundsBehavior::Respawn => Some(OriginalTransform(world_pose)),
        OutOfBoundsBehavior::Despawn => None,
    }
}

/// One collision report from the physics engine for this tick.
#[derive(Clone, Copy, PartialEq, Eq, Structural, Debug)]
pub struct CollisionEvent {
    pub entity1: u64,
    pub entity2: u64,
    /// True when the contact involves a sensor collider (overlap
    /// without physical response).
    pub is_sensor: bool,
}

/// The library's view of one live entity that the tick controllers
/// care about. The engine fills these from its component store.
#[derive(Clone, Copy, PartialEq, Eq, Structural, Debug)]
pub struct ObjectState {
    /// The engine's entity identifier.
    pub id: u64,
    /// True for the void sensor volume that triggers out-of-bounds
    /// handling.
    pub out_of_bounds_marker: bool,
    /// Declared out-of-bounds policy, if any.
    pub behavior: Option<OutOfBoundsBehavior>,
    /// Captured original pose, if one was taken.
    pub original: Option<Pose>,
    /// Current world pose.
    pub pose: Pose,
    /// Linear velocity in milli-units per second.
    pub linear_velocity: Vec3i,
    /// Angular velocity in milliradians per second.
    pub angular_velocity: Vec3i,
    /// True for the player character.
    pub is_player: bool,
    /// True for objects that count towards goals.
    pub is_target: bool,
    /// True for goal sensor volumes.
    pub is_goal: bool,
    /// False once the object has been removed. A removed object's
    /// record stays in the list so identifiers stay meaningful within
    /// the tick; the engine drops the entity and its subtree.
    pub alive: bool,
}

/// Entity identifiers are unique across the object list.
pub open spec fn wf_objects(objs: Seq<ObjectState>) -> bool {
    forall|i: int, j: int|
        0 <= i < j < objs.len() ==> objs[i].id != objs[j].id
}

/// Some live object has this identifier.
pub open spec fn has_live_obj(objs: Seq<ObjectState>, id: u64) -> bool {
    exists|i: int| 0 <= i < objs.len() && objs[i].id == id && objs[i].alive
}

/// The live object with this identifier (meaningful under
/// [`wf_objects`] together with [`has_live_obj`]).
pub open spec fn live_obj(objs: Seq<ObjectState>, id: u64) -> ObjectState {
    objs[choose|i: int| 0 <= i < objs.len() && objs[i].id == id && objs[i].alive]
}

/// This identifier names a live void-sensor volume.
pub open spec fn is_void_sensor(objs: Seq<ObjectState>, id: u64) -> bool {
    exists|i: int|
        0 <= i < objs.len() && objs[i].id == id && objs[i].alive
            && objs[i].out_of_bounds_marker
}

/// This identifier names a live goal-counting target.
pub open spec fn is_target_obj(objs: Seq<ObjectState>, id: u64) -> bool {
    exists|i: int|
        0 <= i < objs.len() && objs[i].id == id && objs[i].alive && objs[i].is_target
}

/// This identifier names a live goal sensor.
pub open spec fn is_goal_obj(objs: Seq<ObjectState>, id: u64) -> bool {
    exists|i: int|
        0 <= i < objs.len() && objs[i].id == id && objs[i].alive && objs[i].is_goal
}

/// One structural edit the respawn controller queues for the end of
/// the tick.
#[derive(Clone, Copy, PartialEq, Eq, Structural, Debug)]
pub enum RespawnEdit {
    /// Put the entity back at `pose` and zero both velocities, in one
    /// batch, so the physics step never sees a stale velocity against
    /// the restored pose.
    Restore { entity: u64, pose: Pose },
    /// Point the camera rig's yaw at the restored heading, so a
    /// teleported player does not appear to have spun.
    SyncCameraYaw { yaw: i64 },
    /// Remove the entity (the engine also removes its descendants).
    Despawn { entity: u64 },
}

/// The edits one entity involved in a void contact gets.
pub open spec fn entity_respawn_edits(objs: Seq<ObjectState>, id: u64) -> Seq<RespawnEdit> {
    if has_live_obj(objs, id) {
        let o = live_obj(objs, id);
        match o.behavior {
            Some(OutOfBoundsBehavior::Respawn) => match o.original {
                Some(orig) => if o.is_player {
                    seq![
                        RespawnEdit::Restore { entity: id, pose: orig },
                        RespawnEdit::SyncCameraYaw { yaw: orig.yaw },
                    ]
                } else {
                    seq![RespawnEdit::Restore { entity: id, pose: orig }]
                },
                // A respawn policy with no captured pose is an
                // authoring error: the object is left where it is.
                None => Seq::empty(),
            },
            Some(OutOfBoundsBehavior::Despawn) => seq![RespawnEdit::Despawn { entity: id }],
            None => Seq::empty(),
        }
    } else {
        Seq::empty()
    }
}

/// The edits one collision event contributes: only sensor contacts
/// where one side is the void sensor count, and then both sides are
/// examined for a declared policy.
pub open spec fn event_respawn_edits(objs: Seq<ObjectState>, ev: CollisionEvent) -> Seq<
    RespawnEdit,
> {
    if ev.is_sensor && (is_void_sensor(objs, ev.entity1) || is_void_sensor(objs, ev.entity2)) {
        entity_respawn_edits(objs, ev.entity1) + entity_respawn_edits(objs, ev.entity2)
    } else {
        Seq::empty()
    }
}

/// The full edit log of one tick's collision events, decided against
/// the tick's pre-state.
pub open spec fn spec_respawn_decide(objs: Seq<ObjectState>, evs: Seq<CollisionEvent>) -> Seq<
    RespawnEdit,
>
    decreases evs.len(),
{
    if evs.len() == 0 {
        Seq::empty()
    } else {
        spec_respawn_decide(objs, evs.drop_last()) + event_respawn_edits(objs, evs.last())
    }
}

/// The out-of-bounds / respawn controller's decision pass.
///
/// Reads this tick's collision events against the pre-tick object
/// state and queues edits; nothing is mutated until
/// [`apply_respawn_edits`] applies the whole log at once, so every
/// event is judged against the same consistent view.
pub fn respawn_important_stuff(
    objects: &Vec<ObjectState>,
    events: &Vec<CollisionEvent>,
) -> (edits: Vec<RespawnEdit>)
    requires
        wf_objects(objects@),
    ensures
        edits@ == spec_respawn_decide(objects@, events@),
{
    let mut edits: Vec<RespawnEdit> = Vec::new();
    let mut i: usize = 0;
    while i < events.len()
        invariant
            wf_objects(objects@),
            i <= events.len(),
            edits@ == spec_respawn_decide(objects@, events@.take(i as int)),
        decreases events.len() - i,
    {
        let ev = events[i];
        assert(events@.take(i + 1 as int).drop_last() == events@.take(i as int));
        assert(events@.take(i + 1 as int).last() == events@[i as int]);
        if ev.is_sensor && (find_live(objects, ev.entity1).is_some()
            && objects[find_live(objects, ev.entity1).unwrap()].out_of_bounds_marker
            || find_live(objects, ev.entity2).is_some()
                && objects[find_live(objects, ev.entity2).unwrap()].out_of_bounds_marker) {
            push_entity_edits(objects, ev.entity1, &mut edits);
            push_entity_edits(objects, ev.entity2, &mut edits);
        } else {
            assert(event_respawn_edits(objects@, ev) == Seq::<RespawnEdit>::empty());
            assert(edits@ == spec_respawn_decide(objects@, events@.take(i + 1 as int)));
        }
        i += 1;
    }
    assert(events@.take(events@.len() as int) == events@);
    edits
}

/// Look up the index of the live object with this identifier.
fn find_live(objects: &Vec<ObjectState>, id: u64) -> (r: Option<usize>)
    requires
        wf_objects(objects@),
    ensures
        match r {
            Some(i) => i < objects@.len() && objects@[i as int].id == id
                && objects@[i as int].alive && has_live_obj(objects@, id)
                && live_obj(objects@, id) == objects@[i as int],
            None => !has_live_obj(objects@, id),
        },
{
    let mut i: usize = 0;
    while i < objects.len()
        invariant
            wf_objects(objects@),
            i <= objects.len(),
            forall|j: int| 0 <= j < i ==> !(objects@[j].id == id && objects@[j].alive),
        decreases objects.len() - i,
    {
        if objects[i].id == id && objects[i].alive {
            proof {
                let w = choose|w: int|
                    0 <= w < objects@.len() && objects@[w].id == id && objects@[w].alive;
                assert(objects@[w].id == objects@[i as int].id);
                assert(w == i);
            }
            return Some(i);
        }
        i += 1;
    }
    None
}

/// Append the edits one contact side contributes to the log.
fn push_entity_edits(objects: &Vec<ObjectState>, id: u64, edits: &mut Vec<RespawnEdit>)
    requires
        wf_objects(objects@),
    ensures
        final(edits)@ == old(edits)@ + entity_respawn_edits(objects@, id),
{
    match find_live(objects, id) {
        None => {
            assert(edits@ == old(edits)@ + entity_respawn_edits(objects@, id));
        },
        Some(i) => {
            let o = objects[i];
            match o.behavior {
                Some(OutOfBoundsBehavior::Respawn) => {
                    match o.original {
                        Some(orig) => {
                            edits.push(RespawnEdit::Restore { entity: id, pose: orig });
                            if o.is_player {
                                edits.push(RespawnEdit::SyncCameraYaw { yaw: orig.yaw });
                            }
                        },
                        None => {
                            // Authoring error: respawn policy without a
                            // captured pose; the object stays put.
                        },
                    }
                },
                Some(OutOfBoundsBehavior::Despawn) => {
                    edits.push(RespawnEdit::Despawn { entity: id });
                },
                None => {},
            }
        },
    }
}

/// An object after a restore edit: back at `pose`, all motion zeroed.
pub open spec fn restored(o: ObjectState, pose: Pose) -> ObjectState {
    ObjectState {
        pose,
        linear_velocity: Vec3i { x: 0, y: 0, z: 0 },
        angular_velocity: Vec3i { x: 0, y: 0, z: 0 },
        ..o
    }
}

/// One edit applied to the object list and camera yaw.
pub open spec fn spec_apply_edit(
    objs: Seq<ObjectState>,
    cam: Option<i64>,
    e: RespawnEdit,
) -> (Seq<ObjectState>, Option<i64>) {
    match e {
        RespawnEdit::Restore { entity, pose } => (
            objs.map(
                |i: int, o: ObjectState|
                    if o.id == entity && o.alive {
                        restored(o, pose)
                    } else {
                        o
                    },
            ),
            cam,
        ),
        RespawnEdit::SyncCameraYaw { yaw } => (
            objs,
            match cam {
                Some(_) => Some(yaw),
                None => None,
            },
        ),
        RespawnEdit::Despawn { entity } => (
            objs.map(
                |i: int, o: ObjectState|
                    if o.id == entity {
                        ObjectState { alive: false, ..o }
                    } else {
                        o
                    },
            ),
            cam,
        ),
    }
}

/// A whole edit log applied in order.
pub open spec fn spec_apply_edits(
    objs: Seq<ObjectState>,
    cam: Option<i64>,
    edits: Seq<RespawnEdit>,
) -> (Seq<ObjectState>, Option<i64>)
    decreases edits.len(),
{
    if edits.len() == 0 {
        (objs, cam)
    } else {
        let prev = spec_apply_edits(objs, cam, edits.drop_last());
        spec_apply_edit(prev.0, prev.1, edits.last())
    }
}

/// Apply a queued edit log at the end of the tick, atomically: the
/// object list and the camera yaw (None when no camera rig exists)
/// move to the state the log describes.
pub fn apply_respawn_edits(
    objects: &mut Vec<ObjectState>,
    camera_yaw: &mut Option<i64>,
    edits: &Vec<RespawnEdit>,
)
    ensures
        (final(objects)@, *final(camera_yaw)) == spec_apply_edits(
            old(objects)@,
            *old(camera_yaw),
            edits@,
        ),
{
    let mut k: usize = 0;
    while k < edits.len()
        invariant
            k <= edits.len(),
            (objects@, *camera_yaw) == spec_apply_edits(
                old(objects)@,
                *old(camera_yaw),
                edits@.take(k as int),
            ),
        decreases edits.len() - k,
    {
        assert(edits@.take(k + 1 as int).drop_last() == edits@.take(k as int));
        assert(edits@.take(k + 1 as int).last() == edits@[k as int]);
        match edits[k] {
            RespawnEdit::Restore { entity, pose } => {
                apply_restore(objects, entity, pose);
            },
            RespawnEdit::SyncCameraYaw { yaw } => {
                if camera_yaw.is_some() {
                    *camera_yaw = Some(yaw);
                }
            },
            RespawnEdit::Despawn { entity } => {
                apply_despawn(objects, entity);
            },
        }
        k += 1;
    }
    assert(edits@.take(edits@.len() as int) == edits@);
}

/// Apply one restore edit in place.
fn apply_restore(objects: &mut Vec<ObjectState>, entity: u64, pose: Pose)
    ensures
        final(objects)@ == old(objects)@.map(
            |i: int, o: ObjectState|
                if o.id == entity && o.alive {
                    restored(o, pose)
                } else {
                    o
                },
        ),
{
    let ghost target = old(objects)@.map(
        |i: int, o: ObjectState|
            if o.id == entity && o.alive {
                restored(o, pose)
            } else {
                o
            },
    );
    let mut out: Vec<ObjectState> = Vec::new();
    let mut j: usize = 0;
    while j < objects.len()
        invariant
            j <= objects.len(),
            objects@ == old(objects)@,
            out@ == target.take(j as int),
            target == old(objects)@.map(
                |i: int, o: ObjectState|
                    if o.id == entity && o.alive {
                        restored(o, pose)
                    } else {
                        o
                    },
            ),
        decreases objects.len() - j,
    {
        let o = objects[j];
        if o.id == entity && o.alive {
            out.push(
                ObjectState {
                    pose,
                    linear_velocity: Vec3i { x: 0, y: 0, z: 0 },
                    angular_velocity: Vec3i { x: 0, y: 0, z: 0 },
                    ..o
                },
            );
        } else {
            out.push(o);
        }
        assert(out@ == target.take(j + 1 as int));
        j += 1;
    }
    assert(target.take(objects@.len() as int) == target);
    *objects = out;
}

/// Apply one despawn edit in place.
fn apply_despawn(objects: &mut Vec<ObjectState>, entity: u64)
    ensures
        final(objects)@ == old(objects)@.map(
            |i: int, o: ObjectState|
                if o.id == entity {
                    ObjectState { alive: false, ..o }
                } else {
                    o
                },
        ),
{
    let ghost target = old(objects)@.map(
        |i: int, o: ObjectState|
            if o.id == entity {
                ObjectState { alive: false, ..o }
            } else {
                o
            },
    );
    let mut out: Vec<ObjectState> = Vec::new();
    let mut j: usize = 0;
    while j < objects.len()
        invariant
            j <= objects.len(),
            objects@ == old(objects)@,
            out@ == target.take(j as int),
            target == old(objects)@.map(
                |i: int, o: ObjectState|
                    if o.id == entity {
                        ObjectState { alive: false, ..o }
                    } else {
                        o
                    },
            ),
        decreases objects.len() - j,
    {
        let o = objects[j];
        if o.id == entity {
            out.push(ObjectState { alive: false, ..o });
        } else {
            out.push(o);
        }
        assert(out@ == target.take(j + 1 as int));
        j += 1;
    }
    assert(target.take(objects@.len() as int) == target);
    *objects = out;
}

/// Whether an edit touches the object with this identifier.
pub open spec fn edit_targets(e: RespawnEdit, id: u64) -> bool {
    match e {
        RespawnEdit::Restore { entity, pose } => entity == id,
        RespawnEdit::Despawn { entity } => entity == id,
        RespawnEdit::SyncCameraYaw { yaw } => false,
    }
}

/// What one edit does to the object it targets.
pub open spec fn spec_edit_effect(e: RespawnEdit, o: ObjectState) -> ObjectState {
    match e {
        RespawnEdit::Restore { entity, pose } => if o.alive {
            restored(o, pose)
        } else {
            o
        },
        RespawnEdit::Despawn { entity } => ObjectState { alive: false, ..o },
        RespawnEdit::SyncCameraYaw { yaw } => o,
    }
}

/// The single edit the decision pass would queue for this identifier,
/// if a void contact touched it: restore to the captured pose, or
/// despawn, or nothing.
pub open spec fn edit_for(objs: Seq<ObjectState>, id: u64) -> Option<RespawnEdit> {
    if has_live_obj(objs, id) {
        let o = live_obj(objs, id);
        match o.behavior {
            Some(OutOfBoundsBehavior::Respawn) => match o.original {
                Some(orig) => Some(RespawnEdit::Restore { entity: id, pose: orig }),
                None => None,
            },
            Some(OutOfBoundsBehavior::Despawn) => Some(RespawnEdit::Despawn { entity: id }),
            None => None,
        }
    } else {
        None
    }
}

/// Under unique identifiers, the live object found for an index's own
/// identifier is that very object.
pub proof fn lemma_live_obj_is(objs: Seq<ObjectState>, k: int)
    requires
        wf_objects(objs),
        0 <= k < objs.len(),
        objs[k].alive,
    ensures
        has_live_obj(objs, objs[k].id),
        live_obj(objs, objs[k].id) == objs[k],
{
    assert(has_live_obj(objs, objs[k].id));
    let w = choose|w: int|
        0 <= w < objs.len() && objs[w].id == objs[k].id && objs[w].alive;
    assert(w == k);
}

/// An edit log never adds or removes object records.
proof fn lemma_apply_edits_len(objs: Seq<ObjectState>, cam: Option<i64>, edits: Seq<RespawnEdit>)
    ensures
        spec_apply_edits(objs, cam, edits).0.len() == objs.len(),
    decreases edits.len(),
{
    if edits.len() > 0 {
        lemma_apply_edits_len(objs, cam, edits.drop_last());
    }
}

/// Applying a concatenated edit log is applying its parts in turn.
pub proof fn lemma_apply_edits_concat(
    objs: Seq<ObjectState>,
    cam: Option<i64>,
    a: Seq<RespawnEdit>,
    b: Seq<RespawnEdit>,
)
    ensures
        spec_apply_edits(objs, cam, a + b) == ({
            let mid = spec_apply_edits(objs, cam, a);
            spec_apply_edits(mid.0, mid.1, b)
        }),
    decreases b.len(),
{
    if b.len() == 0 {
        assert(a + b =~= a);
    } else {
        assert((a + b).drop_last() =~= a + b.drop_last());
        assert((a + b).last() == b.last());
        lemma_apply_edits_concat(objs, cam, a, b.drop_last());
    }
}

/// Where an edit log's edits for one object all agree on a single
/// edit, the log moves that object by that edit's effect — applied
/// once, however often the edit occurs — and leaves it alone when no
/// edit targets it.
proof fn lemma_apply_edits_index(
    objs: Seq<ObjectState>,
    cam: Option<i64>,
    edits: Seq<RespawnEdit>,
    k: int,
    e: RespawnEdit,
)
    requires
        0 <= k < objs.len(),
        forall|m: int|
            0 <= m < edits.len() ==> (edit_targets(#[trigger] edits[m], objs[k].id) ==> edits[m]
                == e),
    ensures
        spec_apply_edits(objs, cam, edits).0.len() == objs.len(),
        spec_apply_edits(objs, cam, edits).0[k] == (if edit_targets(e, objs[k].id) && (exists|
            m: int,
        |
            0 <= m < edits.len() && edits[m] == e) {
            spec_edit_effect(e, objs[k])
        } else {
            objs[k]
        }),
    decreases edits.len(),
{
    if edits.len() > 0 {
        let prior = edits.drop_last();
        let last = edits.last();
        assert(forall|m: int|
            0 <= m < prior.len() ==> (edit_targets(#[trigger] prior[m], objs[k].id) ==> prior[m]
                == e)) by {
            assert(forall|m: int| 0 <= m < prior.len() ==> prior[m] == edits[m]);
        };
        lemma_apply_edits_index(objs, cam, prior, k, e);
        let mid = spec_apply_edits(objs, cam, prior);
        let fin = spec_apply_edit(mid.0, mid.1, last);
        assert(spec_apply_edits(objs, cam, edits) == fin);
        // The object at k before the last edit: untouched or already
        // moved by e; either way its identifier and — unless e
        // despawned it — its liveness match the original's.
        if edit_targets(last, objs[k].id) {
            assert(last == e);
            assert(exists|m: int| 0 <= m < edits.len() && edits[m] == e) by {
                assert(edits[edits.len() - 1] == e);
            };
            match e {
                RespawnEdit::Restore { entity, pose } => {
                    assert(fin.0[k] == spec_edit_effect(e, objs[k]));
                },
                RespawnEdit::Despawn { entity } => {
                    assert(fin.0[k] == spec_edit_effect(e, objs[k]));
                },
                RespawnEdit::SyncCameraYaw { yaw } => {},
            }
        } else {
            // The last edit leaves index k alone: a camera edit keeps
            // every object, and an edit for another identifier fails
            // the identifier test at k.
            assert(fin.0[k] == mid.0[k]);
            if exists|m: int| 0 <= m < edits.len() && edits[m] == e {
                if edit_targets(e, objs[k].id) {
                    let m = choose|m: int| 0 <= m < edits.len() && edits[m] == e;
                    assert(m < prior.len());
                    assert(prior[m] == e);
                }
            }
        }
    }
}

/// The last camera edit of a log, if any.
pub open spec fn last_cam(edits: Seq<RespawnEdit>) -> Option<i64>
    decreases edits.len(),
{
    if edits.len() == 0 {
        None
    } else {
        match edits.last() {
            RespawnEdit::SyncCameraYaw { yaw } => Some(yaw),
            _ => last_cam(edits.drop_last()),
        }
    }
}

/// A log moves the camera yaw to its last camera edit — when a rig
/// exists at all — and otherwise leaves it be.
proof fn lemma_apply_edits_cam(objs: Seq<ObjectState>, cam: Option<i64>, edits: Seq<RespawnEdit>)
    ensures
        spec_apply_edits(objs, cam, edits).1 == (match last_cam(edits) {
            Some(y) => if cam is Some {
                Some(y)
            } else {
                None
            },
            None => cam,
        }),
    decreases edits.len(),
{
    if edits.len() > 0 {
        lemma_apply_edits_cam(objs, cam, edits.drop_last());
    }
}

/// The last camera edit of a concatenation.
proof fn lemma_last_cam_concat(a: Seq<RespawnEdit>, b: Seq<RespawnEdit>)
    ensures
        last_cam(a + b) == (match last_cam(b) {
            Some(y) => Some(y),
            None => last_cam(a),
        }),
    decreases b.len(),
{
    if b.len() == 0 {
        assert(a + b =~= a);
    } else {
        assert((a + b).drop_last() =~= a + b.drop_last());
        assert((a + b).last() == b.last());
        lemma_last_cam_concat(a, b.drop_last());
    }
}

/// Every edit of one entity's contribution that targets `id` is the
/// one edit the pre-state determines for `id`.
proof fn lemma_entity_edits_coherent(objs: Seq<ObjectState>, x: u64, id: u64, m: int)
    requires
        0 <= m < entity_respawn_edits(objs, x).len(),
        edit_targets(entity_respawn_edits(objs, x)[m], id),
    ensures
        Some(entity_respawn_edits(objs, x)[m]) == edit_for(objs, id),
{
}

/// Every edit the decision pass queues that targets `id` is the one
/// edit the pre-state determines for `id`: the pass never queues two
/// different outcomes for one object.
pub proof fn lemma_decide_coherent(
    objs: Seq<ObjectState>,
    evs: Seq<CollisionEvent>,
    id: u64,
    m: int,
)
    requires
        0 <= m < spec_respawn_decide(objs, evs).len(),
        edit_targets(spec_respawn_decide(objs, evs)[m], id),
    ensures
        Some(spec_respawn_decide(objs, evs)[m]) == edit_for(objs, id),
    decreases evs.len(),
{
    if evs.len() > 0 {
        let prior = spec_respawn_decide(objs, evs.drop_last());
        let ev = evs.last();
        if m < prior.len() {
            lemma_decide_coherent(objs, evs.drop_last(), id, m);
        } else {
            let w = m - prior.len();
            let ee = event_respawn_edits(objs, ev);
            assert(spec_respawn_decide(objs, evs)[m] == ee[w]);
            if ev.is_sensor && (is_void_sensor(objs, ev.entity1) || is_void_sensor(
                objs,
                ev.entity2,
            )) {
                let a = entity_respawn_edits(objs, ev.entity1);
                let b = entity_respawn_edits(objs, ev.entity2);
                if w < a.len() {
                    assert(ee[w] == a[w]);
                    lemma_entity_edits_coherent(objs, ev.entity1, id, w);
                } else {
                    assert(ee[w] == b[w - a.len()]);
                    lemma_entity_edits_coherent(objs, ev.entity2, id, w - a.len());
                }
            }
        }
    }
}

/// After a void-sensor contact, a respawning object with a captured
/// pose stands at exactly that pose again, with linear and angular
/// velocity exactly zero, still alive: one simulated out-of-bounds
/// tick puts it back where it was captured.
pub proof fn lemma_respawn_restores_original(
    objs: Seq<ObjectState>,
    cam: Option<i64>,
    ev: CollisionEvent,
    k: int,
)
    requires
        wf_objects(objs),
        ev.is_sensor,
        is_void_sensor(objs, ev.entity1) || is_void_sensor(objs, ev.entity2),
        0 <= k < objs.len(),
        objs[k].alive,
        objs[k].id == ev.entity1 || objs[k].id == ev.entity2,
        objs[k].behavior == Some(OutOfBoundsBehavior::Respawn),
        objs[k].original is Some,
    ensures
        ({
            let r = spec_apply_edits(objs, cam, spec_respawn_decide(objs, seq![ev]));
            &&& r.0.len() == objs.len()
            &&& r.0[k].pose == objs[k].original.unwrap()
            &&& r.0[k].linear_velocity == (Vec3i { x: 0, y: 0, z: 0 })
            &&& r.0[k].angular_velocity == (Vec3i { x: 0, y: 0, z: 0 })
            &&& r.0[k].alive
            &&& r.0[k].id == objs[k].id
        }),
{
    let id = objs[k].id;
    let orig = objs[k].original.unwrap();
    let e = RespawnEdit::Restore { entity: id, pose: orig };
    lemma_live_obj_is(objs, k);
    assert(edit_for(objs, id) == Some(e));
    let d = spec_respawn_decide(objs, seq![ev]);
    assert(seq![ev].len() == 1);
    assert(seq![ev].last() == ev);
    assert(seq![ev].drop_last() =~= Seq::<CollisionEvent>::empty());
    assert(spec_respawn_decide(objs, Seq::<CollisionEvent>::empty())
        =~= Seq::<RespawnEdit>::empty());
    assert(d =~= Seq::<RespawnEdit>::empty() + event_respawn_edits(objs, ev));
    assert(d =~= event_respawn_edits(objs, ev));
    let a = entity_respawn_edits(objs, ev.entity1);
    let b = entity_respawn_edits(objs, ev.entity2);
    assert(d =~= a + b);
    // The decision pass queued the restore edit for this object.
    if id == ev.entity1 {
        assert(a[0] == e);
        assert(d[0] == e);
    } else {
        assert(b[0] == e);
        assert(d[a.len() as int] == e);
    }
    assert(exists|m: int| 0 <= m < d.len() && d[m] == e);
    // And every edit it queued for this object is that same edit.
    assert(forall|m: int|
        0 <= m < d.len() ==> (edit_targets(#[trigger] d[m], id) ==> d[m] == e)) by {
        assert forall|m: int| 0 <= m < d.len() && edit_targets(#[trigger] d[m], id) implies d[m]
            == e by {
            lemma_decide_coherent(objs, seq![ev], id, m);
        };
    };
    lemma_apply_edits_index(objs, cam, d, k, e);
}

/// Delivering the same void-sensor collision event twice within one
/// tick ends in exactly the same state as delivering it once: the
/// respawn edits are idempotent.
pub proof fn lemma_respawn_idempotent(objs: Seq<ObjectState>, cam: Option<i64>, ev: CollisionEvent)
    requires
        wf_objects(objs),
    ensures
        spec_apply_edits(objs, cam, spec_respawn_decide(objs, seq![ev, ev])) == spec_apply_edits(
            objs,
            cam,
            spec_respawn_decide(objs, seq![ev]),
        ),
{
    let e1 = spec_respawn_decide(objs, seq![ev]);
    let e2 = spec_respawn_decide(objs, seq![ev, ev]);
    assert(seq![ev].len() == 1);
    assert(seq![ev].last() == ev);
    assert(seq![ev].drop_last() =~= Seq::<CollisionEvent>::empty());
    assert(spec_respawn_decide(objs, Seq::<CollisionEvent>::empty())
        =~= Seq::<RespawnEdit>::empty());
    assert(e1 =~= Seq::<RespawnEdit>::empty() + event_respawn_edits(objs, ev));
    assert(e1 =~= event_respawn_edits(objs, ev));
    assert(seq![ev, ev].len() == 2);
    assert(seq![ev, ev].last() == ev);
    assert(seq![ev, ev].drop_last() =~= seq![ev]);
    assert(e2 =~= e1 + e1);
    let once = spec_apply_edits(objs, cam, e1);
    let twice = spec_apply_edits(objs, cam, e1 + e1);
    // Objects: for each object, every queued edit that targets it is
    // the one the pre-state determines, in the single log and in the
    // doubled one alike; an effect applied once or twice is the same.
    assert forall|k: int| 0 <= k < objs.len() implies twice.0[k] == once.0[k] by {
        let id = objs[k].id;
        let e = match edit_for(objs, id) {
            Some(ed) => ed,
            None => RespawnEdit::SyncCameraYaw { yaw: 0 },
        };
        assert(forall|m: int|
            0 <= m < e1.len() ==> (edit_targets(#[trigger] e1[m], id) ==> e1[m] == e)) by {
            assert forall|m: int| 0 <= m < e1.len() && edit_targets(#[trigger] e1[m], id) implies
                e1[m] == e by {
                lemma_decide_coherent(objs, seq![ev], id, m);
            };
        };
        assert(forall|m: int|
            0 <= m < e2.len() ==> (edit_targets(#[trigger] e2[m], id) ==> e2[m] == e)) by {
            assert forall|m: int| 0 <= m < e2.len() && edit_targets(#[trigger] e2[m], id) implies
                e2[m] == e by {
                lemma_decide_coherent(objs, seq![ev, ev], id, m);
            };
        };
        assert(forall|m: int|
            0 <= m < (e1 + e1).len() ==> (edit_targets(#[trigger] (e1 + e1)[m], id) ==> (e1
                + e1)[m] == e)) by {
            assert(forall|m: int| 0 <= m < (e1 + e1).len() ==> (e1 + e1)[m] == e2[m]);
        };
        lemma_apply_edits_index(objs, cam, e1, k, e);
        lemma_apply_edits_index(objs, cam, e1 + e1, k, e);
        if exists|m: int| 0 <= m < (e1 + e1).len() && (e1 + e1)[m] == e {
            let m = choose|m: int| 0 <= m < (e1 + e1).len() && (e1 + e1)[m] == e;
            if m < e1.len() {
                assert(e1[m] == e);
            } else {
                assert(e1[m - e1.len()] == e);
            }
            assert(exists|m2: int| 0 <= m2 < e1.len() && e1[m2] == e);
        }
        if exists|m: int| 0 <= m < e1.len() && e1[m] == e {
            let m = choose|m: int| 0 <= m < e1.len() && e1[m] == e;
            assert((e1 + e1)[m] == e);
        }
    };
    lemma_apply_edits_len(objs, cam, e1);
    lemma_apply_edits_len(objs, cam, e1 + e1);
    assert(twice.0 =~= once.0);
    // Camera: the doubled log's last camera edit is the single log's.
    lemma_apply_edits_cam(objs, cam, e1);
    lemma_apply_edits_cam(objs, cam, e1 + e1);
    lemma_last_cam_concat(e1, e1);
}

/// A target touched a goal sensor: exactly one such event is emitted
/// per distinct (target, goal) pair per tick, target side first.
#[derive(Clone, Copy, PartialEq, Eq, Structural, Debug)]
pub struct GoalEvent {
    pub target: u64,
    pub goal: u64,
}

/// The goal event one collision report stands for, if any: a sensor
/// contact with a target on one side and a goal sensor on the other,
/// normalized so the target comes first. When both readings fit, the
/// first entity is taken as the target.
pub open spec fn goal_pair_of(objs: Seq<ObjectState>, ev: CollisionEvent) -> Option<GoalEvent> {
    if ev.is_sensor {
        if is_target_obj(objs, ev.entity1) && is_goal_obj(objs, ev.entity2) {
            Some(GoalEvent { target: ev.entity1, goal: ev.entity2 })
        } else if is_target_obj(objs, ev.entity2) && is_goal_obj(objs, ev.entity1) {
            Some(GoalEvent { target: ev.entity2, goal: ev.entity1 })
        } else {
            None
        }
    } else {
        None
    }
}

/// The deduplicated goal events of one tick, in order of first
/// occurrence: corner and edge contacts report the same pair several
/// times in a tick, and each pair must advance the game exactly once.
pub open spec fn spec_detect_goal_events(
    objs: Seq<ObjectState>,
    evs: Seq<CollisionEvent>,
) -> Seq<GoalEvent>
    decreases evs.len(),
{
    if evs.len() == 0 {
        Seq::empty()
    } else {
        let prev = spec_detect_goal_events(objs, evs.drop_last());
        match goal_pair_of(objs, evs.last()) {
            Some(p) => if prev.contains(p) {
                prev
            } else {
                prev.push(p)
            },
            None => prev,
        }
    }
}

/// The goal-progression controller's detection pass: turn this tick's
/// collision reports into one goal event per distinct (target, goal)
/// pair.
pub fn detect_goal_events(
    objects: &Vec<ObjectState>,
    events: &Vec<CollisionEvent>,
) -> (goals: Vec<GoalEvent>)
    requires
        wf_objects(objects@),
    ensures
        goals@ == spec_detect_goal_events(objects@, events@),
{
    let mut goals: Vec<GoalEvent> = Vec::new();
    let mut i: usize = 0;
    while i < events.len()
        invariant
            wf_objects(objects@),
            i <= events.len(),
            goals@ == spec_detect_goal_events(objects@, events@.take(i as int)),
        decreases events.len() - i,
    {
        let ev = events[i];
        assert(events@.take(i + 1 as int).drop_last() == events@.take(i as int));
        assert(events@.take(i + 1 as int).last() == events@[i as int]);
        let pair = classify_goal_event(objects, ev);
        match pair {
            Some(p) => {
                if !contains_goal(&goals, p) {
                    goals.push(p);
                }
            },
            None => {},
        }
        i += 1;
    }
    assert(events@.take(events@.len() as int) == events@);
    goals
}

/// Decide which goal event, if any, one collision report stands for.
fn classify_goal_event(objects: &Vec<ObjectState>, ev: CollisionEvent) -> (r: Option<GoalEvent>)
    requires
        wf_objects(objects@),
    ensures
        r == goal_pair_of(objects@, ev),
{
    if !ev.is_sensor {
        return None;
    }
    let t1 = is_target_exec(objects, ev.entity1);
    let g2 = is_goal_exec(objects, ev.entity2);
    if t1 && g2 {
        return Some(GoalEvent { target: ev.entity1, goal: ev.entity2 });
    }
    let t2 = is_target_exec(objects, ev.entity2);
    let g1 = is_goal_exec(objects, ev.entity1);
    if t2 && g1 {
        return Some(GoalEvent { target: ev.entity2, goal: ev.entity1 });
    }
    None
}

/// Whether this identifier names a live target.
fn is_target_exec(objects: &Vec<ObjectState>, id: u64) -> (r: bool)
    requires
        wf_objects(objects@),
    ensures
        r == is_target_obj(objects@, id),
{
    match find_live(objects, id) {
        Some(i) => {
            let tagged = objects[i].is_target;
            proof {
                if !tagged && is_target_obj(objects@, id) {
                    let w = choose|w: int|
                        0 <= w < objects@.len() && objects@[w].id == id && objects@[w].alive
                            && objects@[w].is_target;
                    assert(objects@[w].id == objects@[i as int].id);
                    assert(w == i);
                }
            }
            tagged
        },
        None => false,
    }
}

/// Whether this identifier names a live goal sensor.
fn is_goal_exec(objects: &Vec<ObjectState>, id: u64) -> (r: bool)
    requires
        wf_objects(objects@),
    ensures
        r == is_goal_obj(objects@, id),
{
    match find_live(objects, id) {
        Some(i) => {
            let tagged = objects[i].is_goal;
            proof {
                if !tagged && is_goal_obj(objects@, id) {
                    let w = choose|w: int|
                        0 <= w < objects@.len() && objects@[w].id == id && objects@[w].alive
                            && objects@[w].is_goal;
                    assert(objects@[w].id == objects@[i as int].id);
                    assert(w == i);
                }
            }
            tagged
        },
        None => false,
    }
}

/// The tick's goal events are pairwise distinct: however many times a
/// (target, goal) pair was reported this tick, it appears exactly
/// once.
pub proof fn lemma_goal_events_distinct(
    objs: Seq<ObjectState>,
    evs: Seq<CollisionEvent>,
    i: int,
    j: int,
)
    requires
        0 <= i < j < spec_detect_goal_events(objs, evs).len(),
    ensures
        spec_detect_goal_events(objs, evs)[i] != spec_detect_goal_events(objs, evs)[j],
    decreases evs.len(),
{
    if evs.len() > 0 {
        let prev = spec_detect_goal_events(objs, evs.drop_last());
        match goal_pair_of(objs, evs.last()) {
            Some(p) => {
                if prev.contains(p) {
                    lemma_goal_events_distinct(objs, evs.drop_last(), i, j);
                } else {
                    if j < prev.len() {
                        lemma_goal_events_distinct(objs, evs.drop_last(), i, j);
                    } else {
                        assert(spec_detect_goal_events(objs, evs)[j] == p);
                        assert(spec_detect_goal_events(objs, evs)[i] == prev[i]);
                        assert(prev.contains(prev[i]));
                    }
                }
            },
            None => {
                lemma_goal_events_distinct(objs, evs.drop_last(), i, j);
            },
        }
    }
}

/// A (target, goal) pair stands among the tick's goal events exactly
/// when at least one of the tick's collision reports pairs that target
/// with that goal: reported N times with N at least one, it is emitted
/// once; never reported, never emitted.
pub proof fn lemma_goal_events_exactly_reported_pairs(
    objs: Seq<ObjectState>,
    evs: Seq<CollisionEvent>,
    p: GoalEvent,
)
    ensures
        spec_detect_goal_events(objs, evs).contains(p) <==> (exists|m: int|
            0 <= m < evs.len() && goal_pair_of(objs, evs[m]) == Some(p)),
    decreases evs.len(),
{
    if evs.len() == 0 {
        assert(!spec_detect_goal_events(objs, evs).contains(p));
    } else {
        lemma_goal_events_exactly_reported_pairs(objs, evs.drop_last(), p);
        let prev = spec_detect_goal_events(objs, evs.drop_last());
        let cur = spec_detect_goal_events(objs, evs);
        if cur.contains(p) {
            match goal_pair_of(objs, evs.last()) {
                Some(q) => {
                    if !prev.contains(q) && p == q {
                        assert(goal_pair_of(objs, evs[evs.len() - 1]) == Some(p));
                    } else {
                        if prev.contains(q) {
                            assert(prev.contains(p));
                        } else {
                            let w = choose|w: int| 0 <= w < cur.len() && cur[w] == p;
                            if w < prev.len() {
                                assert(prev.contains(p));
                            } else {
                                assert(cur[w] == q);
                            }
                        }
                    }
                },
                None => {
                    assert(prev.contains(p));
                },
            }
            if prev.contains(p) {
                let m = choose|m: int|
                    0 <= m < evs.drop_last().len() && goal_pair_of(objs, evs.drop_last()[m])
                        == Some(p);
                assert(evs.drop_last()[m] == evs[m]);
                assert(goal_pair_of(objs, evs[m]) == Some(p));
            }
        }
        if exists|m: int| 0 <= m < evs.len() && goal_pair_of(objs, evs[m]) == Some(p) {
            let m = choose|m: int| 0 <= m < evs.len() && goal_pair_of(objs, evs[m]) == Some(p);
            if m < evs.len() - 1 {
                assert(evs.drop_last()[m] == evs[m]);
                assert(prev.contains(p));
                if goal_pair_of(objs, evs.last()) is Some && !prev.contains(
                    goal_pair_of(objs, evs.last()).unwrap(),
                ) {
                    let w = choose|w: int| 0 <= w < prev.len() && prev[w] == p;
                    assert(cur[w] == p);
                    assert(cur.contains(p));
                } else {
                    assert(cur == prev);
                }
            } else {
                assert(goal_pair_of(objs, evs.last()) == Some(p));
                if prev.contains(p) {
                    let w = choose|w: int| 0 <= w < prev.len() && prev[w] == p;
                    assert(cur[w] == p);
                } else {
                    assert(cur.last() == p);
                }
                assert(cur.contains(p));
            }
        }
    }
}

/// Whether the log already holds this goal event.
fn contains_goal(goals: &Vec<GoalEvent>, p: GoalEvent) -> (r: bool)
    ensures
        r == goals@.contains(p),
{
    let mut i: usize = 0;
    while i < goals.len()
        invariant
            i <= goals.len(),
            forall|j: int| 0 <= j < i ==> goals@[j] != p,
        decreases goals.len() - i,
    {
        if goals[i] == p {
            return true;
        }
        i += 1;
    }
    false
}

} // verus!
