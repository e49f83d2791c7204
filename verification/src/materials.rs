//! Material assignment rules for scene nodes.
//!
//! A node either gets a named override material (and then takes no part
//! in the outline/section passes), or — when it carries a standard
//! material — gets that material wrapped into the augmented variant
//! exactly once; a node is never double-wrapped.

use vstd::prelude::*;

use crate::blender_types::BMaterial;

verus! {

/// A gameplay tag revealing one of three colors around the tagged
/// node; the render passes read its index.
#[derive(Clone, Copy, PartialEq, Eq, Structural, Debug)]
pub enum ColorReveal {
    Red,
    Green,
    Blue,
}

/// The index under which a color-reveal tag is packed for the shader.
pub fn color_reveal_index(color: &ColorReveal) -> (r: u8)
    ensures
        r == (match color {
            ColorReveal::Red => 1u8,
            ColorReveal::Green => 2u8,
            ColorReveal::Blue => 3u8,
        }),
{
    match color {
        ColorReveal::Red => 1,
        ColorReveal::Green => 2,
        ColorReveal::Blue => 3,
    }
}

/// What a node's material slot currently holds.
#[derive(Clone, Copy, PartialEq, Eq, Structural, Debug)]
pub enum MaterialSlot {
    /// No material at all (a non-rendering node).
    Missing,
    /// The plain standard material the asset came with.
    Standard,
    /// The standard material wrapped into the augmented variant that
    /// carries the shared decal/grit/section inputs.
    Augmented,
    /// The goal override material.
    Goal,
}

/// The material edit the interpreter decides on for one node.
#[derive(Clone, Copy, PartialEq, Eq, Structural, Debug)]
pub enum MaterialAction {
    /// Leave the node's material alone.
    NoChange,
    /// Swap in the named override and suppress the node's
    /// outline/section participation.
    SwapToGoal,
    /// Wrap the node's standard material into the augmented variant.
    Augment,
}

/// Which material edit a node gets: a declared override wins and
/// bypasses augmentation; otherwise a node carrying a standard
/// material is augmented; anything else is left alone.
pub open spec fn spec_material_action(
    override_material: Option<BMaterial>,
    has_standard_material: bool,
) -> MaterialAction {
    match override_material {
        Some(BMaterial::Goal) => MaterialAction::SwapToGoal,
        None => if has_standard_material {
            MaterialAction::Augment
        } else {
            MaterialAction::NoChange
        },
    }
}

/// Decide the material edit for one node.
pub fn material_action(
    override_material: Option<BMaterial>,
    has_standard_material: bool,
) -> (action: MaterialAction)
    ensures
        action == spec_material_action(override_material, has_standard_material),
{
    match override_material {
        Some(BMaterial::Goal) => MaterialAction::SwapToGoal,
        None => if has_standard_material {
            MaterialAction::Augment
        } else {
            MaterialAction::NoChange
        },
    }
}

/// The render-facing state of one node that material edits touch.
#[derive(Clone, Copy, PartialEq, Eq, Structural, Debug)]
pub struct NodeRender {
    pub material: MaterialSlot,
    /// Whether the node takes part in the outline/section draw passes.
    pub draw_section: bool,
}

/// A material edit applied to a node's render state. Augmentation only
/// wraps a plain standard material: a slot that is already augmented —
/// or missing, or overridden — stays as it is, so no node is ever
/// double-wrapped. The goal override always takes the slot and drops
/// the node out of the outline/section passes.
pub open spec fn spec_apply_material_action(r: NodeRender, a: MaterialAction) -> NodeRender {
    match a {
        MaterialAction::NoChange => r,
        MaterialAction::SwapToGoal => NodeRender { material: MaterialSlot::Goal, draw_section: false },
        MaterialAction::Augment => if r.material == MaterialSlot::Standard {
            NodeRender { material: MaterialSlot::Augmented, ..r }
        } else {
            r
        },
    }
}

/// Apply a material edit to one node's render state.
pub fn apply_material_action(render: &mut NodeRender, action: MaterialAction)
    ensures
        *final(render) == spec_apply_material_action(*old(render), action),
{
    match action {
        MaterialAction::NoChange => {},
        MaterialAction::SwapToGoal => {
            render.material = MaterialSlot::Goal;
            render.draw_section = false;
        },
        MaterialAction::Augment => {
            if render.material == MaterialSlot::Standard {
                render.material = MaterialSlot::Augmented;
            }
        },
    }
}

/// A node is wrapped exactly once: applying a material edit a second
/// time changes nothing further, so in particular augmentation never
/// double-wraps.
pub proof fn lemma_material_action_applied_once(r: NodeRender, a: MaterialAction)
    ensures
        spec_apply_material_action(spec_apply_material_action(r, a), a)
            == spec_apply_material_action(r, a),
{
}

} // verus!
