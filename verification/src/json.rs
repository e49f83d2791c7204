//! The textual form of the authored per-node payload.
//!
//! A payload arrives as one JSON-shaped object attached to a scene
//! node. The accepted grammar is the object form the authoring export
//! produces: string keys; values that are strings (with the escapes
//! `\" \\ \/ \n \t \r`), numbers without exponents, `true`, `false`,
//! `null`, or — for `cube_size` — an array of three numbers. Unknown
//! keys are skipped over leniently by bracket matching and are never
//! an error by themselves; a known key appearing twice, a value of the
//! wrong shape, an unknown enum name, or a number out of range makes
//! the whole payload malformed, and the caller then skips this node's
//! extras and carries on with its neighbours.
//!
//! Numbers are read as fixed-point milli-units: up to fifteen integer
//! digits and any number of fraction digits, of which the first three
//! are kept.

use vstd::prelude::*;

use crate::OutOfBoundsBehavior;
use crate::blender_types::BMaterial;
use crate::extras::{ColliderKind, ExtrasPayload, RigidBodyKind, spec_empty_payload};
use crate::materials::ColorReveal;
use crate::math::Vec3i;
use crate::platforms::{PlatformKind, StartEnd};

verus! {

/// Largest integer part a number may carry.
pub const MAX_NUMBER_INT: u64 = 1_000_000_000_000_000;

/// JSON whitespace.
pub open spec fn is_ws(c: char) -> bool {
    c == ' ' || c == '\t' || c == '\n' || c == '\r'
}

/// An ASCII decimal digit.
pub open spec fn is_digit(c: char) -> bool {
    48 <= c as u32 <= 57
}

/// The value of an ASCII decimal digit.
pub open spec fn digit_val(c: char) -> int {
    c as u32 - 48
}

/// The first index at or after `i` holding something other than
/// whitespace.
pub open spec fn spec_skip_ws(s: Seq<char>, i: int) -> int
    decreases s.len() - i,
{
    if 0 <= i < s.len() && is_ws(s[i]) {
        spec_skip_ws(s, i + 1)
    } else {
        i
    }
}

/// The character an escape stands for, if the escape is accepted.
pub open spec fn escape_char(c: char) -> Option<char> {
    if c == '"' {
        Some('"')
    } else if c == '\\' {
        Some('\\')
    } else if c == '/' {
        Some('/')
    } else if c == 'n' {
        Some('\n')
    } else if c == 't' {
        Some('\t')
    } else if c == 'r' {
        Some('\r')
    } else {
        None
    }
}

/// The body of a string read from `i` up to its closing quote: the
/// decoded characters and the index just past the quote. Control
/// characters and unknown escapes are refused.
pub open spec fn spec_string_body(s: Seq<char>, i: int) -> Option<(Seq<char>, int)>
    decreases s.len() - i,
{
    if i < 0 || i >= s.len() {
        None
    } else if s[i] == '"' {
        Some((Seq::empty(), i + 1))
    } else if s[i] == '\\' {
        if i + 1 < s.len() {
            match escape_char(s[i + 1]) {
                Some(c) => match spec_string_body(s, i + 2) {
                    Some((rest, j)) => Some((seq![c] + rest, j)),
                    None => None,
                },
                None => None,
            }
        } else {
            None
        }
    } else if (s[i] as u32) < 32 {
        None
    } else {
        match spec_string_body(s, i + 1) {
            Some((rest, j)) => Some((seq![s[i]] + rest, j)),
            None => None,
        }
    }
}

/// A quoted string read from `i`: its decoded body and the index just
/// past the closing quote.
pub open spec fn spec_parse_string(s: Seq<char>, i: int) -> Option<(Seq<char>, int)> {
    if 0 <= i < s.len() && s[i] == '"' {
        spec_string_body(s, i + 1)
    } else {
        None
    }
}

/// A run of digits read from `i` into an accumulator, refused once the
/// value would pass [`MAX_NUMBER_INT`]: the value and the first index
/// past the run.
pub open spec fn spec_digits(s: Seq<char>, i: int, acc: int) -> Option<(int, int)>
    decreases s.len() - i,
{
    if 0 <= i < s.len() && is_digit(s[i]) {
        let acc2 = acc * 10 + digit_val(s[i]);
        if acc2 > MAX_NUMBER_INT {
            None
        } else {
            spec_digits(s, i + 1, acc2)
        }
    } else {
        Some((acc, i))
    }
}

/// The first index at or after `i` holding a non-digit.
pub open spec fn spec_digits_end(s: Seq<char>, i: int) -> int
    decreases s.len() - i,
{
    if 0 <= i < s.len() && is_digit(s[i]) {
        spec_digits_end(s, i + 1)
    } else {
        i
    }
}

/// The fraction digits starting at `i` as milli-units: the first three
/// digits, padded with zeroes, and the index past the whole run.
/// Digits past the third are read and dropped.
pub open spec fn spec_frac_milli(s: Seq<char>, i: int) -> Option<(int, int)> {
    let e = spec_digits_end(s, i);
    if e <= i {
        None
    } else {
        let d0 = digit_val(s[i]) * 100;
        let d1 = if i + 1 < e {
            digit_val(s[i + 1]) * 10
        } else {
            0
        };
        let d2 = if i + 2 < e {
            digit_val(s[i + 2])
        } else {
            0
        };
        Some((d0 + d1 + d2, e))
    }
}

/// A number read from `i` as fixed-point milli-units: optional minus,
/// at least one integer digit, an optional fraction introduced by a
/// dot. No exponents.
pub open spec fn spec_parse_number(s: Seq<char>, i: int) -> Option<(int, int)> {
    if i < 0 || i >= s.len() {
        None
    } else {
        let neg = s[i] == '-';
        let i0 = if neg {
            i + 1
        } else {
            i
        };
        if i0 < s.len() && is_digit(s[i0]) {
            match spec_digits(s, i0, 0) {
                Some((whole, j)) => {
                    if j < s.len() && s[j] == '.' {
                        match spec_frac_milli(s, j + 1) {
                            Some((frac, k)) => Some(
                                (
                                    if neg {
                                        -(whole * 1000 + frac)
                                    } else {
                                        whole * 1000 + frac
                                    },
                                    k,
                                ),
                            ),
                            None => None,
                        }
                    } else {
                        Some(
                            (
                                if neg {
                                    -(whole * 1000)
                                } else {
                                    whole * 1000
                                },
                                j,
                            ),
                        )
                    }
                },
                None => None,
            }
        } else {
            None
        }
    }
}

/// Whether the literal `lit` stands at `i`.
pub open spec fn spec_lit_at(s: Seq<char>, i: int, lit: Seq<char>) -> bool {
    0 <= i && i + lit.len() <= s.len() && s.subrange(i, i + lit.len()) == lit
}

/// Skip one unknown value by scanning characters, tracking string
/// state and bracket depth, until a comma or a closing bracket at
/// depth zero: the index of that terminator. The scan is lenient on
/// purpose — unknown fields are never an error by themselves — and
/// only refuses an unterminated value.
pub open spec fn spec_skip_value(
    s: Seq<char>,
    i: int,
    depth: int,
    in_str: bool,
    esc: bool,
) -> Option<int>
    decreases s.len() - i,
{
    if i < 0 || i >= s.len() {
        None
    } else {
        let c = s[i];
        if in_str {
            if esc {
                spec_skip_value(s, i + 1, depth, true, false)
            } else if c == '\\' {
                spec_skip_value(s, i + 1, depth, true, true)
            } else if c == '"' {
                spec_skip_value(s, i + 1, depth, false, false)
            } else {
                spec_skip_value(s, i + 1, depth, true, false)
            }
        } else if depth == 0 && (c == ',' || c == '}' || c == ']') {
            Some(i)
        } else if c == '"' {
            spec_skip_value(s, i + 1, depth, true, false)
        } else if c == '[' || c == '{' {
            spec_skip_value(s, i + 1, depth + 1, false, false)
        } else if c == ']' || c == '}' {
            spec_skip_value(s, i + 1, depth - 1, false, false)
        } else {
            spec_skip_value(s, i + 1, depth, false, false)
        }
    }
}

/// The characters of the `null` literal.
pub open spec fn lit_null() -> Seq<char> {
    seq!['n', 'u', 'l', 'l']
}

/// The characters of the `true` literal.
pub open spec fn lit_true() -> Seq<char> {
    seq!['t', 'r', 'u', 'e']
}

/// The characters of the `false` literal.
pub open spec fn lit_false() -> Seq<char> {
    seq!['f', 'a', 'l', 's', 'e']
}

/// Which payload field a key names.
#[derive(Clone, Copy, PartialEq, Eq, Structural, Debug)]
pub enum KeyKind {
    RigidBody,
    Collider,
    CubeSize,
    IsSpawnPoint,
    ColorRevealKey,
    OutOfBounds,
    HoldPointKey,
    GoalKey,
    TargetKey,
    MaterialKey,
    PlatformBehaviorKey,
    StartEndKey,
    AnimationOffsetKey,
    Unknown,
}

/// Classify a key against the payload schema.
pub open spec fn spec_key_kind(k: Seq<char>) -> KeyKind {
    if k == "rigid_body"@ {
        KeyKind::RigidBody
    } else if k == "collider"@ {
        KeyKind::Collider
    } else if k == "cube_size"@ {
        KeyKind::CubeSize
    } else if k == "is_spawn_point"@ {
        KeyKind::IsSpawnPoint
    } else if k == "color_reveal"@ {
        KeyKind::ColorRevealKey
    } else if k == "out_of_bounds_behavior"@ {
        KeyKind::OutOfBounds
    } else if k == "hold_point"@ {
        KeyKind::HoldPointKey
    } else if k == "goal"@ {
        KeyKind::GoalKey
    } else if k == "target"@ {
        KeyKind::TargetKey
    } else if k == "material"@ {
        KeyKind::MaterialKey
    } else if k == "platform_behavior"@ {
        KeyKind::PlatformBehaviorKey
    } else if k == "start_end"@ {
        KeyKind::StartEndKey
    } else if k == "animation_offset"@ {
        KeyKind::AnimationOffsetKey
    } else {
        KeyKind::Unknown
    }
}

/// The physics-body kind a variant name stands for.
pub open spec fn spec_rigid_body_of(v: Seq<char>) -> Option<RigidBodyKind> {
    if v == "Static"@ {
        Some(RigidBodyKind::Static)
    } else if v == "Dynamic"@ {
        Some(RigidBodyKind::Dynamic)
    } else if v == "Kinematic"@ {
        Some(RigidBodyKind::Kinematic)
    } else {
        None
    }
}

/// The collider kind a variant name stands for.
pub open spec fn spec_collider_of(v: Seq<char>) -> Option<ColliderKind> {
    if v == "TrimeshFromMesh"@ {
        Some(ColliderKind::TrimeshFromMesh)
    } else if v == "Cuboid"@ {
        Some(ColliderKind::Cuboid)
    } else {
        None
    }
}

/// The color-reveal tag a variant name stands for.
pub open spec fn spec_color_reveal_of(v: Seq<char>) -> Option<ColorReveal> {
    if v == "Red"@ {
        Some(ColorReveal::Red)
    } else if v == "Green"@ {
        Some(ColorReveal::Green)
    } else if v == "Blue"@ {
        Some(ColorReveal::Blue)
    } else {
        None
    }
}

/// The out-of-bounds policy a variant name stands for.
pub open spec fn spec_out_of_bounds_of(v: Seq<char>) -> Option<OutOfBoundsBehavior> {
    if v == "Respawn"@ {
        Some(OutOfBoundsBehavior::Respawn)
    } else if v == "Despawn"@ {
        Some(OutOfBoundsBehavior::Despawn)
    } else {
        None
    }
}

/// The material override a variant name stands for.
pub open spec fn spec_material_of(v: Seq<char>) -> Option<BMaterial> {
    if v == "Goal"@ {
        Some(BMaterial::Goal)
    } else {
        None
    }
}

/// The platform behavior kind a variant name stands for.
pub open spec fn spec_platform_of(v: Seq<char>) -> Option<PlatformKind> {
    if v == "Rotate90X"@ {
        Some(PlatformKind::Rotate90X)
    } else if v == "Rotate90Y"@ {
        Some(PlatformKind::Rotate90Y)
    } else if v == "MoveLinear"@ {
        Some(PlatformKind::MoveLinear)
    } else {
        None
    }
}

/// The endpoint marker a variant name stands for.
pub open spec fn spec_start_end_of(v: Seq<char>) -> Option<StartEnd> {
    if v == "Start"@ {
        Some(StartEnd::Start)
    } else if v == "End"@ {
        Some(StartEnd::End)
    } else {
        None
    }
}

/// An optional enum value: `null`, or a quoted variant name. The
/// variant name itself is mapped — and an unknown one refused — by the
/// caller.
pub open spec fn spec_parse_opt_variant(s: Seq<char>, i: int) -> Option<
    (Option<Seq<char>>, int),
> {
    if spec_lit_at(s, i, lit_null()) {
        Some((None, i + 4))
    } else {
        match spec_parse_string(s, i) {
            Some((v, j)) => Some((Some(v), j)),
            None => None,
        }
    }
}

/// A boolean literal.
pub open spec fn spec_parse_bool(s: Seq<char>, i: int) -> Option<(bool, int)> {
    if spec_lit_at(s, i, lit_true()) {
        Some((true, i + 4))
    } else if spec_lit_at(s, i, lit_false()) {
        Some((false, i + 5))
    } else {
        None
    }
}

/// A three-component vector: `[` number `,` number `,` number `]`,
/// with whitespace anywhere between tokens, in milli-units.
pub open spec fn spec_parse_vec3(s: Seq<char>, i: int) -> Option<(Vec3i, int)> {
    if 0 <= i < s.len() && s[i] == '[' {
        match spec_parse_number(s, spec_skip_ws(s, i + 1)) {
            Some((x, jx)) => {
                let jc1 = spec_skip_ws(s, jx);
                if jc1 < s.len() && s[jc1] == ',' {
                    match spec_parse_number(s, spec_skip_ws(s, jc1 + 1)) {
                        Some((y, jy)) => {
                            let jc2 = spec_skip_ws(s, jy);
                            if jc2 < s.len() && s[jc2] == ',' {
                                match spec_parse_number(s, spec_skip_ws(s, jc2 + 1)) {
                                    Some((z, jz)) => {
                                        let jc3 = spec_skip_ws(s, jz);
                                        if jc3 < s.len() && s[jc3] == ']' {
                                            Some(
                                                (
                                                    Vec3i {
                                                        x: x as i64,
                                                        y: y as i64,
                                                        z: z as i64,
                                                    },
                                                    jc3 + 1,
                                                ),
                                            )
                                        } else {
                                            None
                                        }
                                    },
                                    None => None,
                                }
                            } else {
                                None
                            }
                        },
                        None => None,
                    }
                } else {
                    None
                }
            },
            None => None,
        }
    } else {
        None
    }
}

/// Which known keys have already been read, so a duplicate known key
/// makes the payload malformed whatever its value.
#[derive(Clone, Copy, PartialEq, Eq, Structural, Debug)]
pub struct SeenFields {
    pub rigid_body: bool,
    pub collider: bool,
    pub cube_size: bool,
    pub is_spawn_point: bool,
    pub color_reveal: bool,
    pub out_of_bounds_behavior: bool,
    pub hold_point: bool,
    pub goal: bool,
    pub target: bool,
    pub material: bool,
    pub platform_behavior: bool,
    pub start_end: bool,
    pub animation_offset: bool,
}

/// No key read yet.
pub open spec fn spec_no_seen() -> SeenFields {
    SeenFields {
        rigid_body: false,
        collider: false,
        cube_size: false,
        is_spawn_point: false,
        color_reveal: false,
        out_of_bounds_behavior: false,
        hold_point: false,
        goal: false,
        target: false,
        material: false,
        platform_behavior: false,
        start_end: false,
        animation_offset: false,
    }
}
/// The `rigid_body` field value read at `i`: `null` or a physics-body kind name.
pub open spec fn spec_field_rigid_body(
    s: Seq<char>,
    i: int,
    p: ExtrasPayload,
    seen: SeenFields,
) -> Option<(ExtrasPayload, SeenFields, int)> {
    if seen.rigid_body {
        None
    } else {
        match spec_parse_opt_variant(s, i) {
            Some((None, j)) => Some((p, SeenFields { rigid_body: true, ..seen }, j)),
            Some((Some(v), j)) => match spec_rigid_body_of(v) {
                Some(k) => Some(
                    (
                        ExtrasPayload { rigid_body: Some(k), ..p },
                        SeenFields { rigid_body: true, ..seen },
                        j,
                    ),
                ),
                None => None,
            },
            None => None,
        }
    }
}

/// The `collider` field value read at `i`: `null` or a collider kind name.
pub open spec fn spec_field_collider(
    s: Seq<char>,
    i: int,
    p: ExtrasPayload,
    seen: SeenFields,
) -> Option<(ExtrasPayload, SeenFields, int)> {
    if seen.collider {
        None
    } else {
        match spec_parse_opt_variant(s, i) {
            Some((None, j)) => Some((p, SeenFields { collider: true, ..seen }, j)),
            Some((Some(v), j)) => match spec_collider_of(v) {
                Some(k) => Some(
                    (
                        ExtrasPayload { collider: Some(k), ..p },
                        SeenFields { collider: true, ..seen },
                        j,
                    ),
                ),
                None => None,
            },
            None => None,
        }
    }
}

/// The `color_reveal` field value read at `i`: `null` or a color-reveal tag name.
pub open spec fn spec_field_color_reveal(
    s: Seq<char>,
    i: int,
    p: ExtrasPayload,
    seen: SeenFields,
) -> Option<(ExtrasPayload, SeenFields, int)> {
    if seen.color_reveal {
        None
    } else {
        match spec_parse_opt_variant(s, i) {
            Some((None, j)) => Some((p, SeenFields { color_reveal: true, ..seen }, j)),
            Some((Some(v), j)) => match spec_color_reveal_of(v) {
                Some(k) => Some(
                    (
                        ExtrasPayload { color_reveal: Some(k), ..p },
                        SeenFields { color_reveal: true, ..seen },
                        j,
                    ),
                ),
                None => None,
            },
            None => None,
        }
    }
}

/// The `out_of_bounds_behavior` field value read at `i`: `null` or a out-of-bounds policy name.
pub open spec fn spec_field_out_of_bounds_behavior(
    s: Seq<char>,
    i: int,
    p: ExtrasPayload,
    seen: SeenFields,
) -> Option<(ExtrasPayload, SeenFields, int)> {
    if seen.out_of_bounds_behavior {
        None
    } else {
        match spec_parse_opt_variant(s, i) {
            Some((None, j)) => Some((p, SeenFields { out_of_bounds_behavior: true, ..seen }, j)),
            Some((Some(v), j)) => match spec_out_of_bounds_of(v) {
                Some(k) => Some(
                    (
                        ExtrasPayload { out_of_bounds_behavior: Some(k), ..p },
                        SeenFields { out_of_bounds_behavior: true, ..seen },
                        j,
                    ),
                ),
                None => None,
            },
            None => None,
        }
    }
}

/// The `material` field value read at `i`: `null` or a material override name.
pub open spec fn spec_field_material(
    s: Seq<char>,
    i: int,
    p: ExtrasPayload,
    seen: SeenFields,
) -> Option<(ExtrasPayload, SeenFields, int)> {
    if seen.material {
        None
    } else {
        match spec_parse_opt_variant(s, i) {
            Some((None, j)) => Some((p, SeenFields { material: true, ..seen }, j)),
            Some((Some(v), j)) => match spec_material_of(v) {
                Some(k) => Some(
                    (
                        ExtrasPayload { material: Some(k), ..p },
                        SeenFields { material: true, ..seen },
                        j,
                    ),
                ),
                None => None,
            },
            None => None,
        }
    }
}

/// The `platform_behavior` field value read at `i`: `null` or a platform behavior kind name.
pub open spec fn spec_field_platform_behavior(
    s: Seq<char>,
    i: int,
    p: ExtrasPayload,
    seen: SeenFields,
) -> Option<(ExtrasPayload, SeenFields, int)> {
    if seen.platform_behavior {
        None
    } else {
        match spec_parse_opt_variant(s, i) {
            Some((None, j)) => Some((p, SeenFields { platform_behavior: true, ..seen }, j)),
            Some((Some(v), j)) => match spec_platform_of(v) {
                Some(k) => Some(
                    (
                        ExtrasPayload { platform_behavior: Some(k), ..p },
                        SeenFields { platform_behavior: true, ..seen },
                        j,
                    ),
                ),
                None => None,
            },
            None => None,
        }
    }
}

/// The `start_end` field value read at `i`: `null` or a endpoint marker name.
pub open spec fn spec_field_start_end(
    s: Seq<char>,
    i: int,
    p: ExtrasPayload,
    seen: SeenFields,
) -> Option<(ExtrasPayload, SeenFields, int)> {
    if seen.start_end {
        None
    } else {
        match spec_parse_opt_variant(s, i) {
            Some((None, j)) => Some((p, SeenFields { start_end: true, ..seen }, j)),
            Some((Some(v), j)) => match spec_start_end_of(v) {
                Some(k) => Some(
                    (
                        ExtrasPayload { start_end: Some(k), ..p },
                        SeenFields { start_end: true, ..seen },
                        j,
                    ),
                ),
                None => None,
            },
            None => None,
        }
    }
}

/// The `is_spawn_point` flag read at `i`.
pub open spec fn spec_field_is_spawn_point(
    s: Seq<char>,
    i: int,
    p: ExtrasPayload,
    seen: SeenFields,
) -> Option<(ExtrasPayload, SeenFields, int)> {
    if seen.is_spawn_point {
        None
    } else {
        match spec_parse_bool(s, i) {
            Some((b, j)) => Some(
                (
                    ExtrasPayload { is_spawn_point: b, ..p },
                    SeenFields { is_spawn_point: true, ..seen },
                    j,
                ),
            ),
            None => None,
        }
    }
}

/// The `hold_point` flag read at `i`.
pub open spec fn spec_field_hold_point(
    s: Seq<char>,
    i: int,
    p: ExtrasPayload,
    seen: SeenFields,
) -> Option<(ExtrasPayload, SeenFields, int)> {
    if seen.hold_point {
        None
    } else {
        match spec_parse_bool(s, i) {
            Some((b, j)) => Some(
                (
                    ExtrasPayload { hold_point: b, ..p },
                    SeenFields { hold_point: true, ..seen },
                    j,
                ),
            ),
            None => None,
        }
    }
}

/// The `goal` flag read at `i`.
pub open spec fn spec_field_goal(
    s: Seq<char>,
    i: int,
    p: ExtrasPayload,
    seen: SeenFields,
) -> Option<(ExtrasPayload, SeenFields, int)> {
    if seen.goal {
        None
    } else {
        match spec_parse_bool(s, i) {
            Some((b, j)) => Some(
                (
                    ExtrasPayload { goal: b, ..p },
                    SeenFields { goal: true, ..seen },
                    j,
                ),
            ),
            None => None,
        }
    }
}

/// The `target` flag read at `i`.
pub open spec fn spec_field_target(
    s: Seq<char>,
    i: int,
    p: ExtrasPayload,
    seen: SeenFields,
) -> Option<(ExtrasPayload, SeenFields, int)> {
    if seen.target {
        None
    } else {
        match spec_parse_bool(s, i) {
            Some((b, j)) => Some(
                (
                    ExtrasPayload { target: b, ..p },
                    SeenFields { target: true, ..seen },
                    j,
                ),
            ),
            None => None,
        }
    }
}

/// The `cube_size` field read at `i`: `null` or three numbers.
pub open spec fn spec_field_cube_size(
    s: Seq<char>,
    i: int,
    p: ExtrasPayload,
    seen: SeenFields,
) -> Option<(ExtrasPayload, SeenFields, int)> {
    if seen.cube_size {
        None
    } else if spec_lit_at(s, i, lit_null()) {
        Some((p, SeenFields { cube_size: true, ..seen }, i + 4))
    } else {
        match spec_parse_vec3(s, i) {
            Some((v, j)) => Some(
                (
                    ExtrasPayload { cube_size: Some(v), ..p },
                    SeenFields { cube_size: true, ..seen },
                    j,
                ),
            ),
            None => None,
        }
    }
}

/// The `animation_offset` field read at `i`: a non-negative number of
/// milliseconds.
pub open spec fn spec_field_animation_offset(
    s: Seq<char>,
    i: int,
    p: ExtrasPayload,
    seen: SeenFields,
) -> Option<(ExtrasPayload, SeenFields, int)> {
    if seen.animation_offset {
        None
    } else {
        match spec_parse_number(s, i) {
            Some((m, j)) => if m >= 0 {
                Some(
                    (
                        ExtrasPayload { animation_offset: m as u64, ..p },
                        SeenFields { animation_offset: true, ..seen },
                        j,
                    ),
                )
            } else {
                None
            },
            None => None,
        }
    }
}

/// One key's value read at `i` and folded into the payload: the
/// updated payload, the updated seen set, and the index just past the
/// value. Unknown keys are skipped up to (not including) their
/// terminator.
pub open spec fn spec_apply_field(
    s: Seq<char>,
    i: int,
    key: Seq<char>,
    p: ExtrasPayload,
    seen: SeenFields,
) -> Option<(ExtrasPayload, SeenFields, int)> {
    match spec_key_kind(key) {
        KeyKind::RigidBody => spec_field_rigid_body(s, i, p, seen),
        KeyKind::Collider => spec_field_collider(s, i, p, seen),
        KeyKind::CubeSize => spec_field_cube_size(s, i, p, seen),
        KeyKind::IsSpawnPoint => spec_field_is_spawn_point(s, i, p, seen),
        KeyKind::ColorRevealKey => spec_field_color_reveal(s, i, p, seen),
        KeyKind::OutOfBounds => spec_field_out_of_bounds_behavior(s, i, p, seen),
        KeyKind::HoldPointKey => spec_field_hold_point(s, i, p, seen),
        KeyKind::GoalKey => spec_field_goal(s, i, p, seen),
        KeyKind::TargetKey => spec_field_target(s, i, p, seen),
        KeyKind::MaterialKey => spec_field_material(s, i, p, seen),
        KeyKind::PlatformBehaviorKey => spec_field_platform_behavior(s, i, p, seen),
        KeyKind::StartEndKey => spec_field_start_end(s, i, p, seen),
        KeyKind::AnimationOffsetKey => spec_field_animation_offset(s, i, p, seen),
        KeyKind::Unknown => match spec_skip_value(s, i, 0, false, false) {
            Some(j) => Some((p, seen, j)),
            None => None,
        },
    }
}

/// The members of the payload object from the first key at `i` to the
/// closing brace: the finished payload and the index just past the
/// brace.
pub open spec fn spec_members(
    s: Seq<char>,
    i: int,
    p: ExtrasPayload,
    seen: SeenFields,
) -> Option<(ExtrasPayload, int)>
    decreases s.len() - i,
{
    match spec_parse_string(s, i) {
        None => None,
        Some((key, j1)) => {
            let j2 = spec_skip_ws(s, j1);
            if j2 < s.len() && s[j2] == ':' {
                let j3 = spec_skip_ws(s, j2 + 1);
                match spec_apply_field(s, j3, key, p, seen) {
                    None => None,
                    Some((p2, seen2, j4)) => {
                        let j5 = spec_skip_ws(s, j4);
                        if j5 < s.len() && s[j5] == '}' {
                            Some((p2, j5 + 1))
                        } else if j5 < s.len() && s[j5] == ',' {
                            let j6 = spec_skip_ws(s, j5 + 1);
                            if i < j6 <= s.len() {
                                spec_members(s, j6, p2, seen2)
                            } else {
                                None
                            }
                        } else {
                            None
                        }
                    },
                }
            } else {
                None
            }
        },
    }
}

/// Skip whitespace from `i`.
fn skip_ws(s: &Vec<char>, i: usize) -> (r: usize)
    requires
        i <= s.len(),
    ensures
        r == spec_skip_ws(s@, i as int),
        i <= r <= s.len(),
    decreases s.len() - i,
{
    if i < s.len() {
        let c = s[i];
        if c == ' ' || c == '\t' || c == '\n' || c == '\r' {
            return skip_ws(s, i + 1);
        }
    }
    i
}

/// Decode one escape character.
fn escape_char_exec(c: char) -> (r: Option<char>)
    ensures
        r == escape_char(c),
{
    if c == '"' {
        Some('"')
    } else if c == '\\' {
        Some('\\')
    } else if c == '/' {
        Some('/')
    } else if c == 'n' {
        Some('\n')
    } else if c == 't' {
        Some('\t')
    } else if c == 'r' {
        Some('\r')
    } else {
        None
    }
}

/// Read a string body up to its closing quote.
fn string_body(s: &Vec<char>, i: usize) -> (r: Option<(Vec<char>, usize)>)
    requires
        i <= s.len(),
    ensures
        (match r {
            Some(vj) => spec_string_body(s@, i as int) == Some((vj.0@, vj.1 as int)) && vj.1
                <= s.len(),
            None => spec_string_body(s@, i as int) is None,
        }),
    decreases s.len() - i,
{
    if i >= s.len() {
        return None;
    }
    let c = s[i];
    if c == '"' {
        let out: Vec<char> = Vec::new();
        assert(out@ =~= Seq::<char>::empty());
        return Some((out, i + 1));
    }
    if c == '\\' {
        if i + 1 < s.len() {
            match escape_char_exec(s[i + 1]) {
                Some(ec) => match string_body(s, i + 2) {
                    Some((rest, j)) => {
                        let ghost old_rest = rest@;
                        let mut rest = rest;
                        rest.insert(0, ec);
                        assert(rest@ =~= seq![ec] + old_rest);
                        Some((rest, j))
                    },
                    None => None,
                },
                None => None,
            }
        } else {
            None
        }
    } else if (c as u32) < 32 {
        None
    } else {
        match string_body(s, i + 1) {
            Some((rest, j)) => {
                let ghost old_rest = rest@;
                let mut rest = rest;
                rest.insert(0, c);
                assert(rest@ =~= seq![c] + old_rest);
                Some((rest, j))
            },
            None => None,
        }
    }
}

/// Read a quoted string.
fn parse_string(s: &Vec<char>, i: usize) -> (r: Option<(Vec<char>, usize)>)
    requires
        i <= s.len(),
    ensures
        (match r {
            Some(vj) => spec_parse_string(s@, i as int) == Some((vj.0@, vj.1 as int)) && vj.1
                <= s.len(),
            None => spec_parse_string(s@, i as int) is None,
        }),
{
    if i < s.len() && s[i] == '"' {
        string_body(s, i + 1)
    } else {
        None
    }
}

/// Accumulate a run of digits, refusing overlong values.
fn digits(s: &Vec<char>, i: usize, acc: u64) -> (r: Option<(u64, usize)>)
    requires
        i <= s.len(),
        acc <= MAX_NUMBER_INT,
    ensures
        (match r {
            Some(vj) => spec_digits(s@, i as int, acc as int) == Some((vj.0 as int, vj.1 as int))
                && vj.1 <= s.len() && vj.0 <= MAX_NUMBER_INT,
            None => spec_digits(s@, i as int, acc as int) is None,
        }),
    decreases s.len() - i,
{
    if i < s.len() {
        let c = s[i];
        if (c as u32) >= 48 && (c as u32) <= 57 {
            let d = ((c as u32) - 48) as u64;
            let acc2 = acc * 10 + d;
            if acc2 > MAX_NUMBER_INT {
                return None;
            }
            return digits(s, i + 1, acc2);
        }
    }
    Some((acc, i))
}

/// Find the first non-digit at or after `i`.
fn digits_end(s: &Vec<char>, i: usize) -> (r: usize)
    requires
        i <= s.len(),
    ensures
        r == spec_digits_end(s@, i as int),
        i <= r <= s.len(),
        forall|j: int| i <= j < r ==> is_digit(s@[j]),
    decreases s.len() - i,
{
    if i < s.len() {
        let c = s[i];
        if (c as u32) >= 48 && (c as u32) <= 57 {
            return digits_end(s, i + 1);
        }
    }
    i
}

/// Read the fraction digits at `i` as milli-units.
fn frac_milli(s: &Vec<char>, i: usize) -> (r: Option<(u64, usize)>)
    requires
        i <= s.len(),
    ensures
        (match r {
            Some(vj) => spec_frac_milli(s@, i as int) == Some((vj.0 as int, vj.1 as int)) && vj.1
                <= s.len() && vj.0 <= 999,
            None => spec_frac_milli(s@, i as int) is None,
        }),
{
    let e = digits_end(s, i);
    if e <= i {
        return None;
    }
    assert(is_digit(s@[i as int]));
    let d0 = (((s[i] as u32) - 48) as u64) * 100;
    let d1: u64 = if e - i >= 2 {
        assert(is_digit(s@[i + 1 as int]));
        (((s[i + 1] as u32) - 48) as u64) * 10
    } else {
        0
    };
    let d2: u64 = if e - i >= 3 {
        assert(is_digit(s@[i + 2 as int]));
        ((s[i + 2] as u32) - 48) as u64
    } else {
        0
    };
    Some((d0 + d1 + d2, e))
}

/// Read a number as fixed-point milli-units.
fn parse_number(s: &Vec<char>, i: usize) -> (r: Option<(i64, usize)>)
    requires
        i <= s.len(),
    ensures
        (match r {
            Some(vj) => spec_parse_number(s@, i as int) == Some((vj.0 as int, vj.1 as int)) && vj.1
                <= s.len(),
            None => spec_parse_number(s@, i as int) is None,
        }),
{
    if i >= s.len() {
        return None;
    }
    let neg = s[i] == '-';
    let i0 = if neg {
        i + 1
    } else {
        i
    };
    if i0 < s.len() && (s[i0] as u32) >= 48 && (s[i0] as u32) <= 57 {
        match digits(s, i0, 0) {
            Some((whole, j)) => {
                if j < s.len() && s[j] == '.' {
                    match frac_milli(s, j + 1) {
                        Some((frac, k)) => {
                            let val = (whole as i64) * 1000 + (frac as i64);
                            Some(
                                (
                                    if neg {
                                        -val
                                    } else {
                                        val
                                    },
                                    k,
                                ),
                            )
                        },
                        None => None,
                    }
                } else {
                    let val = (whole as i64) * 1000;
                    Some(
                        (
                            if neg {
                                -val
                            } else {
                                val
                            },
                            j,
                        ),
                    )
                }
            },
            None => None,
        }
    } else {
        None
    }
}

/// Whether the `null` literal stands at `i`.
fn lit_null_at(s: &Vec<char>, i: usize) -> (r: bool)
    requires
        i <= s.len(),
    ensures
        r == spec_lit_at(s@, i as int, lit_null()),
{
    if i < s.len() && s.len() - i >= 4 && s[i] == 'n' && s[i + 1] == 'u' && s[i + 2] == 'l' && s[i + 3] == 'l' {
        assert(s@.subrange(i as int, i + 4 as int) =~= lit_null());
        true
    } else {
        assert(i + 4 <= s@.len() ==> s@.subrange(i as int, i + 4 as int) != lit_null()) by {
            if i + 4 <= s@.len() {
                let sub = s@.subrange(i as int, i + 4 as int);
                if sub == lit_null() {
                    assert(s@[i as int] == sub[0]);
                    assert(s@[i + 1 as int] == sub[1]);
                    assert(s@[i + 2 as int] == sub[2]);
                    assert(s@[i + 3 as int] == sub[3]);
                }
            }
        };
        false
    }
}

/// Whether the `true` literal stands at `i`.
fn lit_true_at(s: &Vec<char>, i: usize) -> (r: bool)
    requires
        i <= s.len(),
    ensures
        r == spec_lit_at(s@, i as int, lit_true()),
{
    if i < s.len() && s.len() - i >= 4 && s[i] == 't' && s[i + 1] == 'r' && s[i + 2] == 'u' && s[i + 3] == 'e' {
        assert(s@.subrange(i as int, i + 4 as int) =~= lit_true());
        true
    } else {
        assert(i + 4 <= s@.len() ==> s@.subrange(i as int, i + 4 as int) != lit_true()) by {
            if i + 4 <= s@.len() {
                let sub = s@.subrange(i as int, i + 4 as int);
                if sub == lit_true() {
                    assert(s@[i as int] == sub[0]);
                    assert(s@[i + 1 as int] == sub[1]);
                    assert(s@[i + 2 as int] == sub[2]);
                    assert(s@[i + 3 as int] == sub[3]);
                }
            }
        };
        false
    }
}

/// Whether the `false` literal stands at `i`.
fn lit_false_at(s: &Vec<char>, i: usize) -> (r: bool)
    requires
        i <= s.len(),
    ensures
        r == spec_lit_at(s@, i as int, lit_false()),
{
    if i < s.len() && s.len() - i >= 5 && s[i] == 'f' && s[i + 1] == 'a' && s[i + 2] == 'l' && s[i + 3] == 's'
        && s[i + 4] == 'e' {
        assert(s@.subrange(i as int, i + 5 as int) =~= lit_false());
        true
    } else {
        assert(i + 5 <= s@.len() ==> s@.subrange(i as int, i + 5 as int) != lit_false()) by {
            if i + 5 <= s@.len() {
                let sub = s@.subrange(i as int, i + 5 as int);
                if sub == lit_false() {
                    assert(s@[i as int] == sub[0]);
                    assert(s@[i + 1 as int] == sub[1]);
                    assert(s@[i + 2 as int] == sub[2]);
                    assert(s@[i + 3 as int] == sub[3]);
                    assert(s@[i + 4 as int] == sub[4]);
                }
            }
        };
        false
    }
}

/// Skip one unknown value up to its terminator.
fn skip_value(s: &Vec<char>, i: usize, depth: usize, in_str: bool, esc: bool) -> (r: Option<usize>)
    requires
        i <= s.len(),
        depth <= i,
    ensures
        (match r {
            Some(j) => spec_skip_value(s@, i as int, depth as int, in_str, esc) == Some(j as int)
                && j < s.len(),
            None => spec_skip_value(s@, i as int, depth as int, in_str, esc) is None,
        }),
    decreases s.len() - i,
{
    if i >= s.len() {
        return None;
    }
    let c = s[i];
    if in_str {
        if esc {
            skip_value(s, i + 1, depth, true, false)
        } else if c == '\\' {
            skip_value(s, i + 1, depth, true, true)
        } else if c == '"' {
            skip_value(s, i + 1, depth, false, false)
        } else {
            skip_value(s, i + 1, depth, true, false)
        }
    } else if depth == 0 && (c == ',' || c == '}' || c == ']') {
        Some(i)
    } else if c == '"' {
        skip_value(s, i + 1, depth, true, false)
    } else if c == '[' || c == '{' {
        skip_value(s, i + 1, depth + 1, false, false)
    } else if c == ']' || c == '}' {
        skip_value(s, i + 1, depth - 1, false, false)
    } else {
        skip_value(s, i + 1, depth, false, false)
    }
}

/// Whether a key or variant equals a schema name.
fn key_matches(key: &Vec<char>, pat: &str) -> (r: bool)
    ensures
        r == (key@ == pat@),
{
    let n = pat.unicode_len();
    if key.len() != n {
        assert(key@.len() != pat@.len());
        return false;
    }
    let mut i: usize = 0;
    while i < n
        invariant
            n == key@.len() == pat@.len(),
            i <= n,
            forall|j: int| 0 <= j < i ==> key@[j] == pat@[j],
        decreases n - i,
    {
        if key[i] != pat.get_char(i) {
            assert(key@[i as int] != pat@[i as int]);
            return false;
        }
        i += 1;
    }
    assert(key@ =~= pat@);
    true
}

/// A whole payload text: one object, surrounded by whitespace only.
/// Anything else — including trailing text — is malformed.
pub open spec fn spec_parse_extras(s: Seq<char>) -> Option<ExtrasPayload> {
    let i0 = spec_skip_ws(s, 0);
    if i0 < s.len() && s[i0] == '{' {
        let i1 = spec_skip_ws(s, i0 + 1);
        if i1 < s.len() && s[i1] == '}' {
            if spec_skip_ws(s, i1 + 1) == s.len() {
                Some(spec_empty_payload())
            } else {
                None
            }
        } else {
            match spec_members(s, i1, spec_empty_payload(), spec_no_seen()) {
                Some((p, j)) => if spec_skip_ws(s, j) == s.len() {
                    Some(p)
                } else {
                    None
                },
                None => None,
            }
        }
    } else {
        None
    }
}

/// Classify a key against the payload schema.
fn classify_key(key: &Vec<char>) -> (r: KeyKind)
    ensures
        r == spec_key_kind(key@),
{
    if key_matches(key, "rigid_body") {
        KeyKind::RigidBody
    } else if key_matches(key, "collider") {
        KeyKind::Collider
    } else if key_matches(key, "cube_size") {
        KeyKind::CubeSize
    } else if key_matches(key, "is_spawn_point") {
        KeyKind::IsSpawnPoint
    } else if key_matches(key, "color_reveal") {
        KeyKind::ColorRevealKey
    } else if key_matches(key, "out_of_bounds_behavior") {
        KeyKind::OutOfBounds
    } else if key_matches(key, "hold_point") {
        KeyKind::HoldPointKey
    } else if key_matches(key, "goal") {
        KeyKind::GoalKey
    } else if key_matches(key, "target") {
        KeyKind::TargetKey
    } else if key_matches(key, "material") {
        KeyKind::MaterialKey
    } else if key_matches(key, "platform_behavior") {
        KeyKind::PlatformBehaviorKey
    } else if key_matches(key, "start_end") {
        KeyKind::StartEndKey
    } else if key_matches(key, "animation_offset") {
        KeyKind::AnimationOffsetKey
    } else {
        KeyKind::Unknown
    }
}

/// Map a variant name to a physics-body kind.
fn rigid_body_of(v: &Vec<char>) -> (r: Option<RigidBodyKind>)
    ensures
        r == spec_rigid_body_of(v@),
{
    if key_matches(v, "Static") {
        Some(RigidBodyKind::Static)
    } else if key_matches(v, "Dynamic") {
        Some(RigidBodyKind::Dynamic)
    } else if key_matches(v, "Kinematic") {
        Some(RigidBodyKind::Kinematic)
    } else {
        None
    }
}

/// Map a variant name to a collider kind.
fn collider_of(v: &Vec<char>) -> (r: Option<ColliderKind>)
    ensures
        r == spec_collider_of(v@),
{
    if key_matches(v, "TrimeshFromMesh") {
        Some(ColliderKind::TrimeshFromMesh)
    } else if key_matches(v, "Cuboid") {
        Some(ColliderKind::Cuboid)
    } else {
        None
    }
}

/// Map a variant name to a color-reveal tag.
fn color_reveal_of(v: &Vec<char>) -> (r: Option<ColorReveal>)
    ensures
        r == spec_color_reveal_of(v@),
{
    if key_matches(v, "Red") {
        Some(ColorReveal::Red)
    } else if key_matches(v, "Green") {
        Some(ColorReveal::Green)
    } else if key_matches(v, "Blue") {
        Some(ColorReveal::Blue)
    } else {
        None
    }
}

/// Map a variant name to an out-of-bounds policy.
fn out_of_bounds_of(v: &Vec<char>) -> (r: Option<OutOfBoundsBehavior>)
    ensures
        r == spec_out_of_bounds_of(v@),
{
    if key_matches(v, "Respawn") {
        Some(OutOfBoundsBehavior::Respawn)
    } else if key_matches(v, "Despawn") {
        Some(OutOfBoundsBehavior::Despawn)
    } else {
        None
    }
}

/// Map a variant name to a material override.
fn material_of(v: &Vec<char>) -> (r: Option<BMaterial>)
    ensures
        r == spec_material_of(v@),
{
    if key_matches(v, "Goal") {
        Some(BMaterial::Goal)
    } else {
        None
    }
}

/// Map a variant name to a platform behavior kind.
fn platform_of(v: &Vec<char>) -> (r: Option<PlatformKind>)
    ensures
        r == spec_platform_of(v@),
{
    if key_matches(v, "Rotate90X") {
        Some(PlatformKind::Rotate90X)
    } else if key_matches(v, "Rotate90Y") {
        Some(PlatformKind::Rotate90Y)
    } else if key_matches(v, "MoveLinear") {
        Some(PlatformKind::MoveLinear)
    } else {
        None
    }
}

/// Map a variant name to an endpoint marker.
fn start_end_of(v: &Vec<char>) -> (r: Option<StartEnd>)
    ensures
        r == spec_start_end_of(v@),
{
    if key_matches(v, "Start") {
        Some(StartEnd::Start)
    } else if key_matches(v, "End") {
        Some(StartEnd::End)
    } else {
        None
    }
}

/// Read an optional enum value: `null` or a quoted variant name.
fn parse_opt_variant(s: &Vec<char>, i: usize) -> (r: Option<(Option<Vec<char>>, usize)>)
    requires
        i <= s.len(),
    ensures
        (match r {
            Some(vj) => (match vj.0 {
                Some(v) => spec_parse_opt_variant(s@, i as int) == Some(
                    (Some(v@), vj.1 as int),
                ),
                None => spec_parse_opt_variant(s@, i as int) == Some(
                    (None::<Seq<char>>, vj.1 as int),
                ),
            }) && vj.1 <= s.len(),
            None => spec_parse_opt_variant(s@, i as int) is None,
        }),
{
    if lit_null_at(s, i) {
        Some((None, i + 4))
    } else {
        match parse_string(s, i) {
            Some((v, j)) => Some((Some(v), j)),
            None => None,
        }
    }
}

/// Read a boolean literal.
fn parse_bool(s: &Vec<char>, i: usize) -> (r: Option<(bool, usize)>)
    requires
        i <= s.len(),
    ensures
        (match r {
            Some(vj) => spec_parse_bool(s@, i as int) == Some((vj.0, vj.1 as int)) && vj.1
                <= s.len(),
            None => spec_parse_bool(s@, i as int) is None,
        }),
{
    if lit_true_at(s, i) {
        Some((true, i + 4))
    } else if lit_false_at(s, i) {
        Some((false, i + 5))
    } else {
        None
    }
}

/// Read a three-component vector in milli-units.
fn parse_vec3(s: &Vec<char>, i: usize) -> (r: Option<(Vec3i, usize)>)
    requires
        i <= s.len(),
    ensures
        (match r {
            Some(vj) => spec_parse_vec3(s@, i as int) == Some((vj.0, vj.1 as int)) && vj.1
                <= s.len(),
            None => spec_parse_vec3(s@, i as int) is None,
        }),
{
    if i < s.len() && s[i] == '[' {
        match parse_number(s, skip_ws(s, i + 1)) {
            Some((x, jx)) => {
                let jc1 = skip_ws(s, jx);
                if jc1 < s.len() && s[jc1] == ',' {
                    match parse_number(s, skip_ws(s, jc1 + 1)) {
                        Some((y, jy)) => {
                            let jc2 = skip_ws(s, jy);
                            if jc2 < s.len() && s[jc2] == ',' {
                                match parse_number(s, skip_ws(s, jc2 + 1)) {
                                    Some((z, jz)) => {
                                        let jc3 = skip_ws(s, jz);
                                        if jc3 < s.len() && s[jc3] == ']' {
                                            Some((Vec3i { x, y, z }, jc3 + 1))
                                        } else {
                                            None
                                        }
                                    },
                                    None => None,
                                }
                            } else {
                                None
                            }
                        },
                        None => None,
                    }
                } else {
                    None
                }
            },
            None => None,
        }
    } else {
        None
    }
}

/// No key read yet.
fn no_seen() -> (r: SeenFields)
    ensures
        r == spec_no_seen(),
{
    SeenFields {
        rigid_body: false,
        collider: false,
        cube_size: false,
        is_spawn_point: false,
        color_reveal: false,
        out_of_bounds_behavior: false,
        hold_point: false,
        goal: false,
        target: false,
        material: false,
        platform_behavior: false,
        start_end: false,
        animation_offset: false,
    }
}
/// Read the `rigid_body` field value.
fn field_rigid_body(
    s: &Vec<char>,
    i: usize,
    p: &ExtrasPayload,
    seen: &SeenFields,
) -> (r: Option<(ExtrasPayload, SeenFields, usize)>)
    requires
        i <= s.len(),
    ensures
        (match r {
            Some(t) => spec_field_rigid_body(s@, i as int, *p, *seen) == Some(
                (t.0, t.1, t.2 as int),
            ) && t.2 <= s.len(),
            None => spec_field_rigid_body(s@, i as int, *p, *seen) is None,
        }),
{
    if seen.rigid_body {
        return None;
    }
    match parse_opt_variant(s, i) {
        Some((None, j)) => Some((*p, SeenFields { rigid_body: true, ..*seen }, j)),
        Some((Some(v), j)) => match rigid_body_of(&v) {
            Some(k) => Some(
                (
                    ExtrasPayload { rigid_body: Some(k), ..*p },
                    SeenFields { rigid_body: true, ..*seen },
                    j,
                ),
            ),
            None => None,
        },
        None => None,
    }
}

/// Read the `collider` field value.
fn field_collider(
    s: &Vec<char>,
    i: usize,
    p: &ExtrasPayload,
    seen: &SeenFields,
) -> (r: Option<(ExtrasPayload, SeenFields, usize)>)
    requires
        i <= s.len(),
    ensures
        (match r {
            Some(t) => spec_field_collider(s@, i as int, *p, *seen) == Some(
                (t.0, t.1, t.2 as int),
            ) && t.2 <= s.len(),
            None => spec_field_collider(s@, i as int, *p, *seen) is None,
        }),
{
    if seen.collider {
        return None;
    }
    match parse_opt_variant(s, i) {
        Some((None, j)) => Some((*p, SeenFields { collider: true, ..*seen }, j)),
        Some((Some(v), j)) => match collider_of(&v) {
            Some(k) => Some(
                (
                    ExtrasPayload { collider: Some(k), ..*p },
                    SeenFields { collider: true, ..*seen },
                    j,
                ),
            ),
            None => None,
        },
        None => None,
    }
}

/// Read the `color_reveal` field value.
fn field_color_reveal(
    s: &Vec<char>,
    i: usize,
    p: &ExtrasPayload,
    seen: &SeenFields,
) -> (r: Option<(ExtrasPayload, SeenFields, usize)>)
    requires
        i <= s.len(),
    ensures
        (match r {
            Some(t) => spec_field_color_reveal(s@, i as int, *p, *seen) == Some(
                (t.0, t.1, t.2 as int),
            ) && t.2 <= s.len(),
            None => spec_field_color_reveal(s@, i as int, *p, *seen) is None,
        }),
{
    if seen.color_reveal {
        return None;
    }
    match parse_opt_variant(s, i) {
        Some((None, j)) => Some((*p, SeenFields { color_reveal: true, ..*seen }, j)),
        Some((Some(v), j)) => match color_reveal_of(&v) {
            Some(k) => Some(
                (
                    ExtrasPayload { color_reveal: Some(k), ..*p },
                    SeenFields { color_reveal: true, ..*seen },
                    j,
                ),
            ),
            None => None,
        },
        None => None,
    }
}

/// Read the `out_of_bounds_behavior` field value.
fn field_out_of_bounds_behavior(
    s: &Vec<char>,
    i: usize,
    p: &ExtrasPayload,
    seen: &SeenFields,
) -> (r: Option<(ExtrasPayload, SeenFields, usize)>)
    requires
        i <= s.len(),
    ensures
        (match r {
            Some(t) => spec_field_out_of_bounds_behavior(s@, i as int, *p, *seen) == Some(
                (t.0, t.1, t.2 as int),
            ) && t.2 <= s.len(),
            None => spec_field_out_of_bounds_behavior(s@, i as int, *p, *seen) is None,
        }),
{
    if seen.out_of_bounds_behavior {
        return None;
    }
    match parse_opt_variant(s, i) {
        Some((None, j)) => Some((*p, SeenFields { out_of_bounds_behavior: true, ..*seen }, j)),
        Some((Some(v), j)) => match out_of_bounds_of(&v) {
            Some(k) => Some(
                (
                    ExtrasPayload { out_of_bounds_behavior: Some(k), ..*p },
                    SeenFields { out_of_bounds_behavior: true, ..*seen },
                    j,
                ),
            ),
            None => None,
        },
        None => None,
    }
}

/// Read the `material` field value.
fn field_material(
    s: &Vec<char>,
    i: usize,
    p: &ExtrasPayload,
    seen: &SeenFields,
) -> (r: Option<(ExtrasPayload, SeenFields, usize)>)
    requires
        i <= s.len(),
    ensures
        (match r {
            Some(t) => spec_field_material(s@, i as int, *p, *seen) == Some(
                (t.0, t.1, t.2 as int),
            ) && t.2 <= s.len(),
            None => spec_field_material(s@, i as int, *p, *seen) is None,
        }),
{
    if seen.material {
        return None;
    }
    match parse_opt_variant(s, i) {
        Some((None, j)) => Some((*p, SeenFields { material: true, ..*seen }, j)),
        Some((Some(v), j)) => match material_of(&v) {
            Some(k) => Some(
                (
                    ExtrasPayload { material: Some(k), ..*p },
                    SeenFields { material: true, ..*seen },
                    j,
                ),
            ),
            None => None,
        },
        None => None,
    }
}

/// Read the `platform_behavior` field value.
fn field_platform_behavior(
    s: &Vec<char>,
    i: usize,
    p: &ExtrasPayload,
    seen: &SeenFields,
) -> (r: Option<(ExtrasPayload, SeenFields, usize)>)
    requires
        i <= s.len(),
    ensures
        (match r {
            Some(t) => spec_field_platform_behavior(s@, i as int, *p, *seen) == Some(
                (t.0, t.1, t.2 as int),
            ) && t.2 <= s.len(),
            None => spec_field_platform_behavior(s@, i as int, *p, *seen) is None,
        }),
{
    if seen.platform_behavior {
        return None;
    }
    match parse_opt_variant(s, i) {
        Some((None, j)) => Some((*p, SeenFields { platform_behavior: true, ..*seen }, j)),
        Some((Some(v), j)) => match platform_of(&v) {
            Some(k) => Some(
                (
                    ExtrasPayload { platform_behavior: Some(k), ..*p },
                    SeenFields { platform_behavior: true, ..*seen },
                    j,
                ),
            ),
            None => None,
        },
        None => None,
    }
}

/// Read the `start_end` field value.
fn field_start_end(
    s: &Vec<char>,
    i: usize,
    p: &ExtrasPayload,
    seen: &SeenFields,
) -> (r: Option<(ExtrasPayload, SeenFields, usize)>)
    requires
        i <= s.len(),
    ensures
        (match r {
            Some(t) => spec_field_start_end(s@, i as int, *p, *seen) == Some(
                (t.0, t.1, t.2 as int),
            ) && t.2 <= s.len(),
            None => spec_field_start_end(s@, i as int, *p, *seen) is None,
        }),
{
    if seen.start_end {
        return None;
    }
    match parse_opt_variant(s, i) {
        Some((None, j)) => Some((*p, SeenFields { start_end: true, ..*seen }, j)),
        Some((Some(v), j)) => match start_end_of(&v) {
            Some(k) => Some(
                (
                    ExtrasPayload { start_end: Some(k), ..*p },
                    SeenFields { start_end: true, ..*seen },
                    j,
                ),
            ),
            None => None,
        },
        None => None,
    }
}

/// Read the `is_spawn_point` flag.
fn field_is_spawn_point(
    s: &Vec<char>,
    i: usize,
    p: &ExtrasPayload,
    seen: &SeenFields,
) -> (r: Option<(ExtrasPayload, SeenFields, usize)>)
    requires
        i <= s.len(),
    ensures
        (match r {
            Some(t) => spec_field_is_spawn_point(s@, i as int, *p, *seen) == Some(
                (t.0, t.1, t.2 as int),
            ) && t.2 <= s.len(),
            None => spec_field_is_spawn_point(s@, i as int, *p, *seen) is None,
        }),
{
    if seen.is_spawn_point {
        return None;
    }
    match parse_bool(s, i) {
        Some((b, j)) => Some(
            (
                ExtrasPayload { is_spawn_point: b, ..*p },
                SeenFields { is_spawn_point: true, ..*seen },
                j,
            ),
        ),
        None => None,
    }
}

/// Read the `hold_point` flag.
fn field_hold_point(
    s: &Vec<char>,
    i: usize,
    p: &ExtrasPayload,
    seen: &SeenFields,
) -> (r: Option<(ExtrasPayload, SeenFields, usize)>)
    requires
        i <= s.len(),
    ensures
        (match r {
            Some(t) => spec_field_hold_point(s@, i as int, *p, *seen) == Some(
                (t.0, t.1, t.2 as int),
            ) && t.2 <= s.len(),
            None => spec_field_hold_point(s@, i as int, *p, *seen) is None,
        }),
{
    if seen.hold_point {
        return None;
    }
    match parse_bool(s, i) {
        Some((b, j)) => Some(
            (
                ExtrasPayload { hold_point: b, ..*p },
                SeenFields { hold_point: true, ..*seen },
                j,
            ),
        ),
        None => None,
    }
}

/// Read the `goal` flag.
fn field_goal(
    s: &Vec<char>,
    i: usize,
    p: &ExtrasPayload,
    seen: &SeenFields,
) -> (r: Option<(ExtrasPayload, SeenFields, usize)>)
    requires
        i <= s.len(),
    ensures
        (match r {
            Some(t) => spec_field_goal(s@, i as int, *p, *seen) == Some(
                (t.0, t.1, t.2 as int),
            ) && t.2 <= s.len(),
            None => spec_field_goal(s@, i as int, *p, *seen) is None,
        }),
{
    if seen.goal {
        return None;
    }
    match parse_bool(s, i) {
        Some((b, j)) => Some(
            (
                ExtrasPayload { goal: b, ..*p },
                SeenFields { goal: true, ..*seen },
                j,
            ),
        ),
        None => None,
    }
}

/// Read the `target` flag.
fn field_target(
    s: &Vec<char>,
    i: usize,
    p: &ExtrasPayload,
    seen: &SeenFields,
) -> (r: Option<(ExtrasPayload, SeenFields, usize)>)
    requires
        i <= s.len(),
    ensures
        (match r {
            Some(t) => spec_field_target(s@, i as int, *p, *seen) == Some(
                (t.0, t.1, t.2 as int),
            ) && t.2 <= s.len(),
            None => spec_field_target(s@, i as int, *p, *seen) is None,
        }),
{
    if seen.target {
        return None;
    }
    match parse_bool(s, i) {
        Some((b, j)) => Some(
            (
                ExtrasPayload { target: b, ..*p },
                SeenFields { target: true, ..*seen },
                j,
            ),
        ),
        None => None,
    }
}

/// Read the `cube_size` field.
fn field_cube_size(
    s: &Vec<char>,
    i: usize,
    p: &ExtrasPayload,
    seen: &SeenFields,
) -> (r: Option<(ExtrasPayload, SeenFields, usize)>)
    requires
        i <= s.len(),
    ensures
        (match r {
            Some(t) => spec_field_cube_size(s@, i as int, *p, *seen) == Some(
                (t.0, t.1, t.2 as int),
            ) && t.2 <= s.len(),
            None => spec_field_cube_size(s@, i as int, *p, *seen) is None,
        }),
{
    if seen.cube_size {
        return None;
    }
    if lit_null_at(s, i) {
        return Some((*p, SeenFields { cube_size: true, ..*seen }, i + 4));
    }
    match parse_vec3(s, i) {
        Some((v, j)) => Some(
            (
                ExtrasPayload { cube_size: Some(v), ..*p },
                SeenFields { cube_size: true, ..*seen },
                j,
            ),
        ),
        None => None,
    }
}

/// Read the `animation_offset` field.
fn field_animation_offset(
    s: &Vec<char>,
    i: usize,
    p: &ExtrasPayload,
    seen: &SeenFields,
) -> (r: Option<(ExtrasPayload, SeenFields, usize)>)
    requires
        i <= s.len(),
    ensures
        (match r {
            Some(t) => spec_field_animation_offset(s@, i as int, *p, *seen) == Some(
                (t.0, t.1, t.2 as int),
            ) && t.2 <= s.len(),
            None => spec_field_animation_offset(s@, i as int, *p, *seen) is None,
        }),
{
    if seen.animation_offset {
        return None;
    }
    match parse_number(s, i) {
        Some((m, j)) => if m >= 0 {
            Some(
                (
                    ExtrasPayload { animation_offset: m as u64, ..*p },
                    SeenFields { animation_offset: true, ..*seen },
                    j,
                ),
            )
        } else {
            None
        },
        None => None,
    }
}

/// Read one key's value and fold it into the payload.
fn apply_field(
    s: &Vec<char>,
    i: usize,
    key: &Vec<char>,
    p: &ExtrasPayload,
    seen: &SeenFields,
) -> (r: Option<(ExtrasPayload, SeenFields, usize)>)
    requires
        i <= s.len(),
    ensures
        (match r {
            Some(t) => spec_apply_field(s@, i as int, key@, *p, *seen) == Some(
                (t.0, t.1, t.2 as int),
            ) && t.2 <= s.len(),
            None => spec_apply_field(s@, i as int, key@, *p, *seen) is None,
        }),
{
    match classify_key(key) {
        KeyKind::RigidBody => field_rigid_body(s, i, p, seen),
        KeyKind::Collider => field_collider(s, i, p, seen),
        KeyKind::CubeSize => field_cube_size(s, i, p, seen),
        KeyKind::IsSpawnPoint => field_is_spawn_point(s, i, p, seen),
        KeyKind::ColorRevealKey => field_color_reveal(s, i, p, seen),
        KeyKind::OutOfBounds => field_out_of_bounds_behavior(s, i, p, seen),
        KeyKind::HoldPointKey => field_hold_point(s, i, p, seen),
        KeyKind::GoalKey => field_goal(s, i, p, seen),
        KeyKind::TargetKey => field_target(s, i, p, seen),
        KeyKind::MaterialKey => field_material(s, i, p, seen),
        KeyKind::PlatformBehaviorKey => field_platform_behavior(s, i, p, seen),
        KeyKind::StartEndKey => field_start_end(s, i, p, seen),
        KeyKind::AnimationOffsetKey => field_animation_offset(s, i, p, seen),
        KeyKind::Unknown => {
            match skip_value(s, i, 0, false, false) {
                Some(j) => Some((*p, *seen, j)),
                None => None,
            }
        },
    }
}

/// Read the members of the payload object up to its closing brace.
fn members(s: &Vec<char>, i: usize, p: ExtrasPayload, seen: SeenFields) -> (r: Option<
    (ExtrasPayload, usize),
>)
    requires
        i <= s.len(),
    ensures
        (match r {
            Some(t) => spec_members(s@, i as int, p, seen) == Some((t.0, t.1 as int)) && t.1
                <= s.len(),
            None => spec_members(s@, i as int, p, seen) is None,
        }),
    decreases s.len() - i,
{
    match parse_string(s, i) {
        None => None,
        Some((key, j1)) => {
            let j2 = skip_ws(s, j1);
            if j2 < s.len() && s[j2] == ':' {
                let j3 = skip_ws(s, j2 + 1);
                match apply_field(s, j3, &key, &p, &seen) {
                    None => None,
                    Some((p2, seen2, j4)) => {
                        let j5 = skip_ws(s, j4);
                        if j5 < s.len() && s[j5] == '}' {
                            Some((p2, j5 + 1))
                        } else if j5 < s.len() && s[j5] == ',' {
                            let j6 = skip_ws(s, j5 + 1);
                            if i < j6 {
                                members(s, j6, p2, seen2)
                            } else {
                                None
                            }
                        } else {
                            None
                        }
                    },
                }
            } else {
                None
            }
        },
    }
}

/// Parse a payload text given as characters.
fn parse_extras_chars(s: &Vec<char>) -> (r: Option<ExtrasPayload>)
    ensures
        r == spec_parse_extras(s@),
{
    let i0 = skip_ws(s, 0);
    if i0 < s.len() && s[i0] == '{' {
        let i1 = skip_ws(s, i0 + 1);
        if i1 < s.len() && s[i1] == '}' {
            if skip_ws(s, i1 + 1) == s.len() {
                Some(ExtrasPayload::empty())
            } else {
                None
            }
        } else {
            match members(s, i1, ExtrasPayload::empty(), no_seen()) {
                Some((p, j)) => if skip_ws(s, j) == s.len() {
                    Some(p)
                } else {
                    None
                },
                None => None,
            }
        }
    } else {
        None
    }
}

/// Parse one node's extras text into its payload. The result is
/// `None` exactly when the text does not fit the payload grammar; the
/// caller then skips this node's extras and the rest of the scene is
/// unaffected.
pub fn parse_extras(text: &str) -> (r: Option<ExtrasPayload>)
    ensures
        r == spec_parse_extras(text@),
{
    let n = text.unicode_len();
    let mut chars: Vec<char> = Vec::new();
    let mut i: usize = 0;
    while i < n
        invariant
            n == text@.len(),
            i <= n,
            chars@ == text@.take(i as int),
        decreases n - i,
    {
        chars.push(text.get_char(i));
        assert(chars@ =~= text@.take(i + 1 as int));
        i += 1;
    }
    assert(text@.take(n as int) =~= text@);
    parse_extras_chars(&chars)
}

} // verus!
