//! Platform animation synthesis, the scene walker, material rules,
//! the pickup interaction, and the end-to-end out-of-bounds scenario.

use boxes_game::blender_types::BMaterial;
use boxes_game::extras::{ColliderError, ColliderResolution, ColliderShape, RigidBodyKind};
use boxes_game::interact::{apply_grab, apply_release, raycast_player, throw_held_item,
    GrabOutcome, Holding, ItemState, ReleaseOutcome};
use boxes_game::materials::{apply_material_action, color_reveal_index, material_action,
    ColorReveal, MaterialAction, MaterialSlot, NodeRender};
use boxes_game::math::{Pose, Vec3i};
use boxes_game::platforms::{move_linear_position, setup_animation_platforms,
    tick_animation_offset_timer, AnimationCurve, AnimationOffsetTimer, EaseKind, PlatformKind,
    PlatformState};
use boxes_game::scene::{find_platform_markers, first_spawn_point, object_from_node,
    process_scene, SceneNode};
use boxes_game::{apply_respawn_edits, respawn_important_stuff, CollisionEvent, ObjectState};

fn v(x: i64, y: i64, z: i64) -> Vec3i {
    Vec3i { x, y, z }
}

fn pose(x: i64, y: i64, z: i64) -> Pose {
    Pose { translation: v(x, y, z), yaw: 0 }
}

fn node(id: u64, parent: Option<usize>, extras: Option<&str>) -> SceneNode {
    SceneNode {
        id,
        parent,
        extras: extras.map(|s| s.to_string()),
        has_mesh: false,
        has_standard_material: false,
        local_translation: v(0, 0, 0),
        world_pose: pose(0, 0, 0),
    }
}

#[test]
fn rotate_platform_synthesizes_once() {
    let mut st = PlatformState::unprocessed(None);
    setup_animation_platforms(&mut st, PlatformKind::Rotate90X, None, None);
    assert!(st.processed);
    assert!(st.playing);
    let clip = st.clip.expect("clip synthesized");
    assert!(clip.looping);
    assert_eq!(clip.segment_ms, 4_000);
    assert_eq!(clip.easing, EaseKind::ElasticInOut);
    assert!(matches!(clip.curve, AnimationCurve::RotateQuarter { .. }));
    // A second pass never re-synthesizes.
    let before = st;
    setup_animation_platforms(&mut st, PlatformKind::Rotate90Y, None, None);
    assert_eq!(st, before);
}

#[test]
fn move_linear_platform_waits_for_markers() {
    let mut st = PlatformState::unprocessed(None);
    // No markers found yet: unprocessed, to be retried next pass.
    setup_animation_platforms(&mut st, PlatformKind::MoveLinear, Some(v(0, 0, 0)), None);
    assert!(!st.processed);
    assert!(st.clip.is_none());
    // Both markers found: the clip ping-pongs between them, linearly.
    setup_animation_platforms(
        &mut st,
        PlatformKind::MoveLinear,
        Some(v(0, 0, 0)),
        Some(v(4_000, 0, 0)),
    );
    assert!(st.processed);
    let clip = st.clip.expect("clip synthesized");
    assert_eq!(clip.easing, EaseKind::Linear);
    assert_eq!(
        clip.curve,
        AnimationCurve::PingPongTranslate { start: v(0, 0, 0), end: v(4_000, 0, 0) }
    );
}

#[test]
fn offset_timer_pauses_playback_then_fires_once() {
    let mut st = PlatformState::unprocessed(Some(AnimationOffsetTimer(1_500)));
    setup_animation_platforms(&mut st, PlatformKind::Rotate90X, None, None);
    assert!(st.processed);
    assert!(!st.playing, "playback pauses while the offset timer is pending");
    // A partial tick burns the countdown down.
    tick_animation_offset_timer(&mut st, 1_000);
    assert!(!st.playing);
    assert_eq!(st.timer, Some(AnimationOffsetTimer(500)));
    // The finishing tick resumes playback and removes the timer.
    tick_animation_offset_timer(&mut st, 500);
    assert!(st.playing);
    assert_eq!(st.timer, None);
    // Further ticks change nothing: the timer fired exactly once.
    let before = st;
    tick_animation_offset_timer(&mut st, 10_000);
    assert_eq!(st, before);
}

#[test]
fn timer_does_not_run_before_synthesis() {
    let mut st = PlatformState::unprocessed(Some(AnimationOffsetTimer(1_000)));
    tick_animation_offset_timer(&mut st, 5_000);
    assert_eq!(st.timer, Some(AnimationOffsetTimer(1_000)));
}

#[test]
fn move_linear_motion_visits_both_endpoints_periodically() {
    let s = v(0, 1_000, 0);
    let e = v(8_000, 1_000, 0);
    // At time zero the platform stands at the start.
    assert_eq!(move_linear_position(s, e, 0), s);
    // Half a segment in, it is halfway.
    assert_eq!(move_linear_position(s, e, 2_000), v(4_000, 1_000, 0));
    // One segment in, it reaches the end and holds there.
    assert_eq!(move_linear_position(s, e, 4_000), e);
    assert_eq!(move_linear_position(s, e, 6_500), e);
    // On the way back, and home again, holding at the start.
    assert_eq!(move_linear_position(s, e, 10_000), v(4_000, 1_000, 0));
    assert_eq!(move_linear_position(s, e, 12_000), s);
    assert_eq!(move_linear_position(s, e, 15_999), s);
    // The whole cycle repeats with a sixteen-second period.
    for t in [0_u64, 2_000, 4_000, 6_500, 10_000, 12_000] {
        assert_eq!(
            move_linear_position(s, e, t + 16_000),
            move_linear_position(s, e, t)
        );
    }
}

#[test]
fn malformed_node_does_not_stop_its_siblings() {
    let nodes = vec![
        node(1, None, Some(r#"{"goal": true}"#)),
        node(2, None, Some("this is not a payload")),
        node(3, None, Some(r#"{"target": true}"#)),
    ];
    let results = process_scene(&nodes);
    assert!(results[0].edits.goal);
    assert!(!results[0].malformed);
    assert!(results[1].malformed, "the bad node is noted");
    assert!(!results[1].edits.goal);
    assert!(results[2].edits.target);
    assert!(!results[2].malformed);
}

#[test]
fn cuboid_collider_extents_equal_cube_size() {
    let mut n = node(1, None, Some(r#"{"collider": "Cuboid", "cube_size": [1, 2, 0.5]}"#));
    n.has_mesh = true;
    let results = process_scene(&vec![n]);
    assert_eq!(
        results[0].edits.collider,
        ColliderResolution::Attached(ColliderShape::Cuboid {
            size: v(1_000, 2_000, 500)
        })
    );
}

#[test]
fn collider_errors_are_node_scoped() {
    // A cuboid without a size fails only the collider channel.
    let n = node(1, None, Some(r#"{"collider": "Cuboid", "goal": true}"#));
    let results = process_scene(&vec![n]);
    assert_eq!(
        results[0].edits.collider,
        ColliderResolution::Failed(ColliderError::MissingCubeSize)
    );
    assert!(results[0].edits.goal, "the rest of the node's payload still lands");
    // A mesh-derived collider on a node without mesh geometry fails too.
    let n = node(1, None, Some(r#"{"collider": "TrimeshFromMesh"}"#));
    let results = process_scene(&vec![n]);
    assert_eq!(
        results[0].edits.collider,
        ColliderResolution::Failed(ColliderError::TrimeshOnNonMeshNode)
    );
}

#[test]
fn platform_nodes_become_kinematic_with_timer() {
    let n = node(
        1,
        None,
        Some(r#"{"platform_behavior": "Rotate90X", "rigid_body": "Dynamic", "animation_offset": 2}"#),
    );
    let results = process_scene(&vec![n]);
    let edits = results[0].edits;
    assert_eq!(edits.rigid_body, Some(RigidBodyKind::Kinematic));
    let platform = edits.platform.expect("platform edit");
    assert_eq!(platform.kind, PlatformKind::Rotate90X);
    assert_eq!(platform.timer, Some(AnimationOffsetTimer(2_000)));
    // Without an offset there is no timer.
    let n = node(1, None, Some(r#"{"platform_behavior": "Rotate90Y"}"#));
    let results = process_scene(&vec![n]);
    assert_eq!(results[0].edits.platform.expect("platform edit").timer, None);
}

#[test]
fn spawn_point_selection_takes_the_first() {
    let nodes = vec![
        node(1, None, None),
        node(2, None, Some(r#"{"is_spawn_point": true}"#)),
        node(3, None, Some(r#"{"is_spawn_point": true}"#)),
    ];
    let results = process_scene(&nodes);
    assert_eq!(first_spawn_point(&results), Some(1));
    let none = process_scene(&vec![node(1, None, None)]);
    assert_eq!(first_spawn_point(&none), None);
}

#[test]
fn platform_markers_found_under_the_parent() {
    let mut start = node(3, Some(0), Some(r#"{"start_end": "Start"}"#));
    start.local_translation = v(0, 0, 0);
    let mut end = node(4, Some(3), Some(r#"{"start_end": "End"}"#));
    end.local_translation = v(0, 0, 9_000);
    let nodes = vec![
        node(1, None, None),                                          // parent
        node(2, Some(0), Some(r#"{"platform_behavior": "MoveLinear"}"#)), // platform
        node(5, Some(0), None),
        start,
        end,
    ];
    let results = process_scene(&nodes);
    let (s, e) = find_platform_markers(&nodes, &results, 1);
    assert_eq!(s, Some(v(0, 0, 0)));
    assert_eq!(e, Some(v(0, 0, 9_000)));
    // A platform at the root has no parent to search under.
    let root = vec![node(1, None, Some(r#"{"platform_behavior": "MoveLinear"}"#))];
    let root_results = process_scene(&root);
    assert_eq!(find_platform_markers(&root, &root_results, 0), (None, None));
}

#[test]
fn material_rules_swap_once_and_never_double_wrap() {
    // A declared override wins and drops the outline participation.
    let mut r = NodeRender { material: MaterialSlot::Standard, draw_section: true };
    apply_material_action(&mut r, material_action(Some(BMaterial::Goal), true));
    assert_eq!(r, NodeRender { material: MaterialSlot::Goal, draw_section: false });
    // A standard material is augmented exactly once.
    let mut r = NodeRender { material: MaterialSlot::Standard, draw_section: true };
    let augment = material_action(None, true);
    assert_eq!(augment, MaterialAction::Augment);
    apply_material_action(&mut r, augment);
    assert_eq!(r.material, MaterialSlot::Augmented);
    apply_material_action(&mut r, augment);
    assert_eq!(r.material, MaterialSlot::Augmented, "never double-wrapped");
    // A node without a standard material is left alone.
    assert_eq!(material_action(None, false), MaterialAction::NoChange);
}

#[test]
fn color_reveal_pack_indices() {
    assert_eq!(color_reveal_index(&ColorReveal::Red), 1);
    assert_eq!(color_reveal_index(&ColorReveal::Green), 2);
    assert_eq!(color_reveal_index(&ColorReveal::Blue), 3);
}

fn loose_item(id: u64) -> ItemState {
    ItemState {
        id,
        parent: None,
        physics_active: true,
        pose: pose(1_000, 0, 0),
        linear_velocity: v(0, 0, 0),
        angular_velocity: v(0, 0, 0),
    }
}

#[test]
fn grab_reparents_and_suspends_physics() {
    let (outcome, holding) = raycast_player(
        &Holding(None),
        Some(50),
        Some(7),
        Some(v(0, 250, 0)),
    );
    assert_eq!(
        outcome,
        GrabOutcome::Grabbed { target: 7, anchor: 50, local_translation: v(0, -250, 0) }
    );
    assert_eq!(holding, Holding(Some(7)));
    let mut item = loose_item(7);
    apply_grab(&mut item, &outcome);
    assert_eq!(item.parent, Some(50));
    assert!(!item.physics_active);
    assert_eq!(item.pose.translation, v(0, -250, 0));
}

#[test]
fn grab_while_holding_is_a_no_op() {
    let mut held = loose_item(7);
    held.parent = Some(50);
    held.physics_active = false;
    let before = held;
    let (outcome, holding) = raycast_player(
        &Holding(Some(7)),
        Some(50),
        Some(8),
        Some(v(0, 250, 0)),
    );
    assert_eq!(outcome, GrabOutcome::AlreadyHolding);
    assert_eq!(holding, Holding(Some(7)), "the held reference is unchanged");
    apply_grab(&mut held, &outcome);
    assert_eq!(held, before, "the held object's state is unchanged");
}

#[test]
fn grab_needs_hit_and_anchors() {
    let hp = Some(v(0, 250, 0));
    let (outcome, holding) = raycast_player(&Holding(None), None, Some(7), hp);
    assert_eq!(outcome, GrabOutcome::NoHoldAnchor);
    assert_eq!(holding, Holding(None));
    let (outcome, _) = raycast_player(&Holding(None), Some(50), None, hp);
    assert_eq!(outcome, GrabOutcome::NoHit);
    let (outcome, _) = raycast_player(&Holding(None), Some(50), Some(7), None);
    assert_eq!(outcome, GrabOutcome::NoHoldPoint);
}

#[test]
fn release_throws_forward_and_up() {
    let world = pose(2_000, 1_500, 0);
    let (outcome, holding) = throw_held_item(
        &Holding(Some(7)),
        world,
        v(0, 0, -3_000),
        v(0, 0, -1_000),
    );
    assert_eq!(
        outcome,
        ReleaseOutcome::Released {
            entity: 7,
            pose: world,
            linear_velocity: v(0, 0, -3_000),
            impulse: v(0, 5_000, -4_000),
        }
    );
    assert_eq!(holding, Holding(None));
    let mut item = loose_item(7);
    item.parent = Some(50);
    item.physics_active = false;
    item.angular_velocity = v(9, 9, 9);
    apply_release(&mut item, &outcome);
    assert_eq!(item.parent, None);
    assert!(item.physics_active);
    assert_eq!(item.pose, world);
    assert_eq!(item.linear_velocity, v(0, 0, -3_000));
    assert_eq!(item.angular_velocity, v(0, 0, 0));
}

#[test]
fn release_with_empty_hands_is_a_no_op() {
    let mut item = loose_item(7);
    let before = item;
    let (outcome, holding) = throw_held_item(
        &Holding(None),
        pose(0, 0, 0),
        v(0, 0, 0),
        v(0, 0, -1_000),
    );
    assert_eq!(outcome, ReleaseOutcome::NotHolding);
    assert_eq!(holding, Holding(None));
    apply_release(&mut item, &outcome);
    assert_eq!(item, before);
}

#[test]
fn falling_crate_respawns_end_to_end() {
    // A level node: a dynamic cuboid crate that respawns, authored at
    // (0, 5, 0).
    let mut n = node(
        1,
        None,
        Some(
            r#"{"collider": "Cuboid", "cube_size": [1, 1, 1], "rigid_body": "Dynamic", "out_of_bounds_behavior": "Respawn"}"#,
        ),
    );
    n.has_mesh = true;
    n.world_pose = pose(0, 5_000, 0);
    let results = process_scene(&vec![n.clone()]);
    let edits = results[0].edits;
    assert_eq!(
        edits.collider,
        ColliderResolution::Attached(ColliderShape::Cuboid {
            size: v(1_000, 1_000, 1_000)
        })
    );
    assert_eq!(edits.rigid_body, Some(RigidBodyKind::Dynamic));
    // The original pose is captured during interpretation, before any
    // collision can ask for it.
    assert_eq!(edits.original_transform, Some(pose(0, 5_000, 0)));

    // The crate becomes a tracked runtime object and falls towards the
    // void sensor at y = -60.
    let mut crate_obj: ObjectState = object_from_node(1, &edits, n.world_pose);
    crate_obj.pose = pose(0, -60_000, 0);
    crate_obj.linear_velocity = v(0, -34_000, 0);
    let mut void = object_from_node(2, &process_scene(&vec![node(2, None, None)])[0].edits, pose(0, -60_000, 0));
    void.out_of_bounds_marker = true;
    let mut objects = vec![crate_obj, void];
    let mut camera = None;

    // The physics engine reports the sensor contact; the controller
    // restores the crate within the same tick.
    let events = vec![CollisionEvent { entity1: 2, entity2: 1, is_sensor: true }];
    let queued = respawn_important_stuff(&objects, &events);
    apply_respawn_edits(&mut objects, &mut camera, &queued);
    assert_eq!(objects[0].pose, pose(0, 5_000, 0));
    assert_eq!(objects[0].linear_velocity, v(0, 0, 0));
    assert_eq!(objects[0].angular_velocity, v(0, 0, 0));
    assert!(objects[0].alive);
}
