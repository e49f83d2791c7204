//! Level lifecycle: which level is current, what the next one is, and
//! how the player is placed when a level's scene has been instantiated.

use vstd::prelude::*;

use crate::ObjectState;
use crate::OutOfBoundsBehavior;
use crate::math::{Pose, Vec3i, COORD_LIMIT};

verus! {

/// The identifier of the level being played, as named in the authored
/// scene file.
#[derive(Clone, PartialEq, Eq, Debug)]
pub struct CurrentLevel(pub String);

impl Default for CurrentLevel {
    /// The game opens on the first level of the sequence.
    fn default() -> (r: Self)
        ensures
            r.0@ == "level.002"@,
    {
        CurrentLevel(String::from_str("level.002"))
    }
}

/// Where the level lifecycle stands.
#[derive(Clone, Copy, PartialEq, Eq, Structural, Debug, Default)]
pub enum LevelState {
    /// A level is being loaded.
    #[default]
    Loading,
    /// A level is being played.
    Level,
    /// The final goal was reached.
    Win,
}

/// Ask the player-spawning collaborator to place the player at this
/// scene node.
#[derive(Clone, Copy, PartialEq, Eq, Structural, Debug)]
pub struct SpawnPlayerEvent {
    pub spawn_point_entity: u64,
}

/// The ordered sequence of level identifiers the game walks through.
pub fn level_sequence() -> (levels: Vec<String>)
    ensures
        levels@.len() == 3,
        levels@[0]@ == "level.002"@,
        levels@[1]@ == "level.005"@,
        levels@[2]@ == "level.006"@,
{
    let mut levels: Vec<String> = Vec::new();
    levels.push(String::from_str("level.002"));
    levels.push(String::from_str("level.005"));
    levels.push(String::from_str("level.006"));
    levels
}

/// The level after `current` in the sequence: the successor of the
/// first entry that names `current`, or nothing when `current` is the
/// last entry or absent (the game is complete).
pub open spec fn spec_advance_level(levels: Seq<String>, current: Seq<char>) -> Option<String>
    decreases levels.len(),
{
    if levels.len() < 2 {
        None
    } else if levels[0]@ == current {
        Some(levels[1])
    } else {
        spec_advance_level(levels.drop_first(), current)
    }
}

/// On a goal event, pick the level to load next, or nothing when the
/// current level is the last of the sequence: then the game is won.
pub fn advance_level(levels: &Vec<String>, current: &CurrentLevel) -> (next: Option<CurrentLevel>)
    ensures
        next matches Some(n) ==> Some(n.0) == spec_advance_level(levels@, current.0@),
        next is None ==> spec_advance_level(levels@, current.0@) is None,
{
    let mut i: usize = 0;
    assert(levels@.skip(0) == levels@);
    while i < levels.len() && i + 1 < levels.len()
        invariant
            i <= levels.len(),
            spec_advance_level(levels@, current.0@) == spec_advance_level(
                levels@.skip(i as int),
                current.0@,
            ),
        decreases levels.len() - i,
    {
        assert(levels@.skip(i as int).drop_first() == levels@.skip(i + 1 as int));
        assert(levels@.skip(i as int)[0] == levels@[i as int]);
        assert(levels@.skip(i as int)[1] == levels@[i + 1 as int]);
        if levels[i].eq(&current.0) {
            return Some(CurrentLevel(levels[i + 1].clone()));
        }
        i += 1;
    }
    None
}

/// The state the lifecycle enters when loading begins: keep the
/// current level if one is set, fall back to the default otherwise,
/// and move on to playing.
pub fn setup_level(current: Option<CurrentLevel>) -> (r: (CurrentLevel, LevelState))
    ensures
        (match current {
            Some(c) => r.0 == c,
            None => r.0.0@ == "level.002"@,
        }),
        r.1 == LevelState::Level,
{
    let level = match current {
        Some(c) => c,
        None => CurrentLevel::default(),
    };
    (level, LevelState::Level)
}

/// When a level's scene has been instantiated, ask for the player to
/// be spawned at the scene's spawn point, if the walker found one.
pub fn on_level_spawn(spawn_point: Option<u64>) -> (ev: Option<SpawnPlayerEvent>)
    ensures
        ev == (match spawn_point {
            Some(id) => Some(SpawnPlayerEvent { spawn_point_entity: id }),
            None => None::<SpawnPlayerEvent>,
        }),
{
    match spawn_point {
        Some(id) => Some(SpawnPlayerEvent { spawn_point_entity: id }),
        None => None,
    }
}

/// Where the player character is placed for a spawn point standing at
/// `spawn_pose`: ten units straight up, facing the spawn point's way.
pub fn player_spawn_pose(spawn_pose: Pose) -> (r: Pose)
    requires
        spawn_pose.in_bounds(),
    ensures
        r.translation.x == spawn_pose.translation.x,
        r.translation.y == spawn_pose.translation.y + 10_000,
        r.translation.z == spawn_pose.translation.z,
        r.yaw == spawn_pose.yaw,
{
    Pose {
        translation: Vec3i {
            x: spawn_pose.translation.x,
            y: spawn_pose.translation.y + 10_000,
            z: spawn_pose.translation.z,
        },
        yaw: spawn_pose.yaw,
    }
}

/// The freshly spawned player object: a respawning dynamic body whose
/// original pose is captured at spawn time, holding nothing, at rest.
pub fn player_object(id: u64, pose: Pose) -> (o: ObjectState)
    ensures
        o == (ObjectState {
            id,
            out_of_bounds_marker: false,
            behavior: Some(OutOfBoundsBehavior::Respawn),
            original: Some(pose),
            pose,
            linear_velocity: Vec3i { x: 0, y: 0, z: 0 },
            angular_velocity: Vec3i { x: 0, y: 0, z: 0 },
            is_player: true,
            is_target: false,
            is_goal: false,
            alive: true,
        }),
{
    ObjectState {
        id,
        out_of_bounds_marker: false,
        behavior: Some(OutOfBoundsBehavior::Respawn),
        original: Some(pose),
        pose,
        linear_velocity: Vec3i { x: 0, y: 0, z: 0 },
        angular_velocity: Vec3i { x: 0, y: 0, z: 0 },
        is_player: true,
        is_target: false,
        is_goal: false,
        alive: true,
    }
}

} // verus!
