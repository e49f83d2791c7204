//! Fixed-point geometry for the gameplay core.
//!
//! All lengths are integers in milli-units (one thousandth of a world
//! unit), all angles in milliradians. The engine around the library
//! converts to and from its own floating-point types at the boundary.

use vstd::prelude::*;

verus! {

/// Largest magnitude a coordinate may take, in milli-units.
///
/// Keeping coordinates within this bound lets every computation in the
/// library (differences, scaling by the animation clock) stay inside
/// `i64` without overflow.
pub const COORD_LIMIT: i64 = 1_000_000_000_000;

/// A point or vector in world space, in milli-units per axis.
#[derive(Clone, Copy, PartialEq, Eq, Structural, Debug)]
pub struct Vec3i {
    pub x: i64,
    pub y: i64,
    pub z: i64,
}

impl Vec3i {
    /// All coordinates within `COORD_LIMIT`.
    pub open spec fn in_bounds(self) -> bool {
        -COORD_LIMIT <= self.x <= COORD_LIMIT
        && -COORD_LIMIT <= self.y <= COORD_LIMIT
        && -COORD_LIMIT <= self.z <= COORD_LIMIT
    }

    /// The origin.
    pub fn zero() -> (r: Vec3i)
        ensures
            r == (Vec3i { x: 0, y: 0, z: 0 }),
    {
        Vec3i { x: 0, y: 0, z: 0 }
    }

    /// Build a vector from its three coordinates.
    pub fn new(x: i64, y: i64, z: i64) -> (r: Vec3i)
        ensures
            r == (Vec3i { x, y, z }),
    {
        Vec3i { x, y, z }
    }
}

/// A world-space pose: where an entity stands and which way it faces.
///
/// The original scene data carries a full rotation; the gameplay rules
/// only ever read the heading about the vertical axis (to point the
/// camera after a respawn), so the pose keeps translation plus yaw.
#[derive(Clone, Copy, PartialEq, Eq, Structural, Debug)]
pub struct Pose {
    /// Position in milli-units.
    pub translation: Vec3i,
    /// Heading about the vertical axis, in milliradians.
    pub yaw: i64,
}

impl Pose {
    pub open spec fn in_bounds(self) -> bool {
        self.translation.in_bounds()
    }

    /// The identity pose at the origin.
    pub fn identity() -> (r: Pose)
        ensures
            r == (Pose { translation: Vec3i { x: 0, y: 0, z: 0 }, yaw: 0 }),
    {
        Pose { translation: Vec3i { x: 0, y: 0, z: 0 }, yaw: 0 }
    }
}

} // verus!
