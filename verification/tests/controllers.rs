//! The collision-driven tick controllers: out-of-bounds respawn,
//! goal-event deduplication, and level progression.

use boxes_game::level_spawn::{advance_level, level_sequence, setup_level, on_level_spawn,
    player_object, player_spawn_pose, CurrentLevel, LevelState, SpawnPlayerEvent};
use boxes_game::math::{Pose, Vec3i};
use boxes_game::{apply_respawn_edits, detect_goal_events, on_add_out_of_bounds_behavior,
    respawn_important_stuff, track_fake_long_task, CollisionEvent, GoalEvent, ObjectState,
    OriginalTransform, OutOfBoundsBehavior};

fn v(x: i64, y: i64, z: i64) -> Vec3i {
    Vec3i { x, y, z }
}

fn pose(x: i64, y: i64, z: i64) -> Pose {
    Pose { translation: v(x, y, z), yaw: 0 }
}

fn plain_object(id: u64) -> ObjectState {
    ObjectState {
        id,
        out_of_bounds_marker: false,
        behavior: None,
        original: None,
        pose: pose(0, 0, 0),
        linear_velocity: v(0, 0, 0),
        angular_velocity: v(0, 0, 0),
        is_player: false,
        is_target: false,
        is_goal: false,
        alive: true,
    }
}

fn void_sensor(id: u64) -> ObjectState {
    let mut o = plain_object(id);
    o.out_of_bounds_marker = true;
    o.pose = pose(0, -60_000, 0);
    o
}

fn falling_crate(id: u64) -> ObjectState {
    let mut o = plain_object(id);
    o.behavior = Some(OutOfBoundsBehavior::Respawn);
    o.original = Some(pose(0, 5_000, 0));
    o.pose = pose(0, -59_000, 0);
    o.linear_velocity = v(0, -9_000, 0);
    o.angular_velocity = v(100, 0, 0);
    o
}

fn sensor_contact(a: u64, b: u64) -> CollisionEvent {
    CollisionEvent { entity1: a, entity2: b, is_sensor: true }
}

#[test]
fn respawn_restores_pose_and_zeroes_motion() {
    let mut objects = vec![falling_crate(1), void_sensor(2)];
    let mut camera = Some(700_i64);
    let events = vec![sensor_contact(1, 2)];
    let edits = respawn_important_stuff(&objects, &events);
    apply_respawn_edits(&mut objects, &mut camera, &edits);
    assert_eq!(objects[0].pose, pose(0, 5_000, 0));
    assert_eq!(objects[0].linear_velocity, v(0, 0, 0));
    assert_eq!(objects[0].angular_velocity, v(0, 0, 0));
    assert!(objects[0].alive);
    // The crate is no player: the camera stays where it was.
    assert_eq!(camera, Some(700));
}

#[test]
fn respawn_twice_in_one_tick_equals_once() {
    let once = {
        let mut objects = vec![falling_crate(1), void_sensor(2)];
        let mut camera = Some(700_i64);
        let events = vec![sensor_contact(1, 2)];
        let edits = respawn_important_stuff(&objects, &events);
        apply_respawn_edits(&mut objects, &mut camera, &edits);
        (objects, camera)
    };
    let twice = {
        let mut objects = vec![falling_crate(1), void_sensor(2)];
        let mut camera = Some(700_i64);
        let events = vec![sensor_contact(1, 2), sensor_contact(1, 2)];
        let edits = respawn_important_stuff(&objects, &events);
        apply_respawn_edits(&mut objects, &mut camera, &edits);
        (objects, camera)
    };
    assert_eq!(once, twice);
}

#[test]
fn respawning_player_syncs_camera_yaw() {
    let mut player = falling_crate(1);
    player.is_player = true;
    player.original = Some(Pose { translation: v(0, 5_000, 0), yaw: 1_234 });
    let mut objects = vec![player, void_sensor(2)];
    let mut camera = Some(0_i64);
    let edits = respawn_important_stuff(&objects, &vec![sensor_contact(2, 1)]);
    apply_respawn_edits(&mut objects, &mut camera, &edits);
    assert_eq!(camera, Some(1_234));
    assert_eq!(objects[0].pose.yaw, 1_234);
}

#[test]
fn respawning_player_without_camera_rig() {
    let mut player = falling_crate(1);
    player.is_player = true;
    let mut objects = vec![player, void_sensor(2)];
    let mut camera = None;
    let edits = respawn_important_stuff(&objects, &vec![sensor_contact(1, 2)]);
    apply_respawn_edits(&mut objects, &mut camera, &edits);
    assert_eq!(camera, None);
    assert_eq!(objects[0].pose, pose(0, 5_000, 0));
}

#[test]
fn despawn_policy_removes_object() {
    let mut o = plain_object(1);
    o.behavior = Some(OutOfBoundsBehavior::Despawn);
    let mut objects = vec![o, void_sensor(2)];
    let mut camera = None;
    let edits = respawn_important_stuff(&objects, &vec![sensor_contact(1, 2)]);
    apply_respawn_edits(&mut objects, &mut camera, &edits);
    assert!(!objects[0].alive);
    assert!(objects[1].alive);
}

#[test]
fn respawn_without_capture_is_left_alone() {
    let mut o = plain_object(1);
    o.behavior = Some(OutOfBoundsBehavior::Respawn);
    o.original = None;
    o.pose = pose(0, -59_000, 0);
    let mut objects = vec![o, void_sensor(2)];
    let mut camera = None;
    let edits = respawn_important_stuff(&objects, &vec![sensor_contact(1, 2)]);
    assert!(edits.is_empty());
    apply_respawn_edits(&mut objects, &mut camera, &edits);
    assert_eq!(objects[0].pose, pose(0, -59_000, 0));
}

#[test]
fn non_sensor_and_non_void_contacts_are_ignored() {
    let objects = vec![falling_crate(1), void_sensor(2), plain_object(3)];
    // Physical (non-sensor) contact with the void volume.
    let e1 = respawn_important_stuff(
        &objects,
        &vec![CollisionEvent { entity1: 1, entity2: 2, is_sensor: false }],
    );
    assert!(e1.is_empty());
    // Sensor contact that involves no void volume.
    let e2 = respawn_important_stuff(&objects, &vec![sensor_contact(1, 3)]);
    assert!(e2.is_empty());
}

#[test]
fn goal_events_deduplicate_per_pair() {
    let mut target = plain_object(10);
    target.is_target = true;
    let mut goal = plain_object(20);
    goal.is_goal = true;
    let objects = vec![target, goal];
    // The same pair reported three times in one tick, both ways round.
    let events = vec![
        sensor_contact(10, 20),
        sensor_contact(20, 10),
        sensor_contact(10, 20),
    ];
    let goals = detect_goal_events(&objects, &events);
    assert_eq!(goals, vec![GoalEvent { target: 10, goal: 20 }]);
}

#[test]
fn goal_events_are_normalized_and_filtered() {
    let mut target = plain_object(10);
    target.is_target = true;
    let mut goal = plain_object(20);
    goal.is_goal = true;
    let objects = vec![target, goal, plain_object(30)];
    // Target listed second: still reported target-first.
    let goals = detect_goal_events(&objects, &vec![sensor_contact(20, 10)]);
    assert_eq!(goals, vec![GoalEvent { target: 10, goal: 20 }]);
    // A target touching a plain object is no goal event; neither is a
    // physical contact between target and goal.
    assert!(detect_goal_events(&objects, &vec![sensor_contact(10, 30)]).is_empty());
    assert!(detect_goal_events(
        &objects,
        &vec![CollisionEvent { entity1: 10, entity2: 20, is_sensor: false }],
    )
    .is_empty());
}

#[test]
fn two_distinct_pairs_give_two_events() {
    let mut t1 = plain_object(1);
    t1.is_target = true;
    let mut t2 = plain_object(2);
    t2.is_target = true;
    let mut g = plain_object(3);
    g.is_goal = true;
    let objects = vec![t1, t2, g];
    let events = vec![sensor_contact(1, 3), sensor_contact(2, 3), sensor_contact(1, 3)];
    let goals = detect_goal_events(&objects, &events);
    assert_eq!(
        goals,
        vec![GoalEvent { target: 1, goal: 3 }, GoalEvent { target: 2, goal: 3 }]
    );
}

#[test]
fn level_progression_walks_the_sequence() {
    let levels = level_sequence();
    let next = advance_level(&levels, &CurrentLevel("level.002".to_string()));
    assert_eq!(next.map(|c| c.0), Some("level.005".to_string()));
    let next = advance_level(&levels, &CurrentLevel("level.005".to_string()));
    assert_eq!(next.map(|c| c.0), Some("level.006".to_string()));
    // The last level has no successor: the game is complete.
    let next = advance_level(&levels, &CurrentLevel("level.006".to_string()));
    assert!(next.is_none());
    // An unknown level is treated the same way.
    let next = advance_level(&levels, &CurrentLevel("level.009".to_string()));
    assert!(next.is_none());
}

#[test]
fn setup_level_keeps_or_defaults_the_level() {
    let (level, state) = setup_level(Some(CurrentLevel("level.005".to_string())));
    assert_eq!(level.0, "level.005");
    assert_eq!(state, LevelState::Level);
    let (level, state) = setup_level(None);
    assert_eq!(level.0, "level.002");
    assert_eq!(state, LevelState::Level);
}

#[test]
fn scene_ready_triggers_player_spawn() {
    assert_eq!(
        on_level_spawn(Some(7)),
        Some(SpawnPlayerEvent { spawn_point_entity: 7 })
    );
    assert_eq!(on_level_spawn(None), None);
}

#[test]
fn player_spawns_ten_units_above_the_spawn_point() {
    let spawn = Pose { translation: v(2_000, 1_000, -3_000), yaw: 500 };
    let p = player_spawn_pose(spawn);
    assert_eq!(p.translation, v(2_000, 11_000, -3_000));
    assert_eq!(p.yaw, 500);
    let player = player_object(42, p);
    assert_eq!(player.behavior, Some(OutOfBoundsBehavior::Respawn));
    assert_eq!(player.original, Some(p));
    assert!(player.is_player);
}

#[test]
fn capture_on_behavior_attach() {
    let at = pose(1_000, 2_000, 3_000);
    assert_eq!(
        on_add_out_of_bounds_behavior(&OutOfBoundsBehavior::Respawn, at),
        Some(OriginalTransform(at))
    );
    assert_eq!(
        on_add_out_of_bounds_behavior(&OutOfBoundsBehavior::Despawn, at),
        None
    );
}

#[test]
fn long_task_gate() {
    assert!(!track_fake_long_task(0));
    assert!(!track_fake_long_task(4_000));
    assert!(track_fake_long_task(4_001));
}
