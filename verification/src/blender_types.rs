//! The mesh-level slice of the authored per-node metadata.

use vstd::prelude::*;

use crate::platforms::StartEnd;

verus! {

/// A named material-override recipe an author can put on a node.
#[derive(Clone, Copy, PartialEq, Eq, Structural, Debug)]
pub enum BMaterial {
    Goal,
}

/// The fields of the authored payload that travel on the mesh channel
/// of a node: the material override, the endpoint marker, and the
/// animation start delay (milliseconds, zero when unset).
#[derive(Clone, Copy, PartialEq, Eq, Structural, Debug)]
pub struct BMeshExtras {
    pub material: Option<BMaterial>,
    pub start_end: Option<StartEnd>,
    pub animation_offset: u64,
}

} // verus!
