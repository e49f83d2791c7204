//! Platform animation: authored platform behaviors are resolved into
//! procedural animation clips, with an optional one-shot start delay.
//!
//! Per platform the states are: unprocessed, then processed-and-playing,
//! or processed-and-paused until the offset timer elapses. A platform is
//! synthesized once and never again; a linearly moving platform whose
//! start or end marker has not been found yet is left unprocessed and
//! retried on the next pass, so markers may arrive late.

use vstd::prelude::*;

use crate::math::Vec3i;

verus! {

/// Length of one eased animation segment, in milliseconds.
pub const SEGMENT_MS: u64 = 4000;

/// Full period of the four-phase linear-motion loop, in milliseconds.
pub const PERIOD_MS: u64 = 16000;

/// Marks a node as one endpoint of a sibling platform's motion.
#[derive(Clone, Copy, PartialEq, Eq, Structural, Debug)]
pub enum StartEnd {
    Start,
    End,
}

/// An authored platform behavior, with the motion endpoints already
/// resolved from the platform's sibling markers.
#[derive(Clone, Copy, PartialEq, Eq, Structural, Debug)]
pub enum PlatformBehavior {
    /// Swing between identity and a quarter turn about the X axis.
    Rotate90X,
    /// Swing between identity and a quarter turn about the Y axis.
    Rotate90Y,
    /// Move back and forth between two endpoints.
    MoveLinear { start: Vec3i, end: Vec3i },
}

/// The behavior kind as it stands in a node's authored payload, before
/// the endpoints of a linear mover are discovered.
#[derive(Clone, Copy, PartialEq, Eq, Structural, Debug)]
pub enum PlatformKind {
    Rotate90X,
    Rotate90Y,
    MoveLinear,
}

/// The authored delay before a platform's animation starts, in
/// milliseconds.
#[derive(Clone, Copy, PartialEq, Eq, Structural, Debug)]
pub struct PlatformAnimationOffset(pub u64);

/// The one-shot countdown gating playback: present only while the
/// platform still waits out its authored offset.
#[derive(Clone, Copy, PartialEq, Eq, Structural, Debug)]
pub struct AnimationOffsetTimer(pub u64);

impl PlatformAnimationOffset {
    /// The countdown an authored offset seeds: none for a zero offset,
    /// whose platform plays at once.
    pub fn timer(self) -> (t: Option<AnimationOffsetTimer>)
        ensures
            t == (if self.0 > 0 {
                Some(AnimationOffsetTimer(self.0))
            } else {
                None::<AnimationOffsetTimer>
            }),
    {
        if self.0 > 0 {
            Some(AnimationOffsetTimer(self.0))
        } else {
            None
        }
    }
}

/// Which axis a rotation clip turns about.
#[derive(Clone, Copy, PartialEq, Eq, Structural, Debug)]
pub enum RotationAxis {
    X,
    Y,
}

/// How a clip's motion is eased over each segment.
#[derive(Clone, Copy, PartialEq, Eq, Structural, Debug)]
pub enum EaseKind {
    Linear,
    ElasticInOut,
}

/// The shape of a synthesized motion.
#[derive(Clone, Copy, PartialEq, Eq, Structural, Debug)]
pub enum AnimationCurve {
    /// Identity to a quarter turn about `axis` over one segment.
    RotateQuarter { axis: RotationAxis },
    /// Four phases of one segment each: start to end, hold at end,
    /// end back to start, hold at start.
    PingPongTranslate { start: Vec3i, end: Vec3i },
}

/// A synthesized animation clip, handed to the engine's playback
/// driver. The engine evaluates it; the library fixes its shape.
#[derive(Clone, Copy, PartialEq, Eq, Structural, Debug)]
pub struct AnimationClip {
    pub curve: AnimationCurve,
    pub easing: EaseKind,
    /// Length of one motion segment, in milliseconds.
    pub segment_ms: u64,
    /// The clip repeats indefinitely.
    pub looping: bool,
}

/// The library's animation state of one platform entity.
#[derive(Clone, Copy, PartialEq, Eq, Structural, Debug)]
pub struct PlatformState {
    /// Set once the clip has been synthesized; never cleared, so a
    /// platform is synthesized at most once.
    pub processed: bool,
    /// The synthesized clip, present exactly when processed.
    pub clip: Option<AnimationClip>,
    /// Whether the playback driver is running.
    pub playing: bool,
    /// The pending start-delay countdown, if any.
    pub timer: Option<AnimationOffsetTimer>,
}

impl PlatformState {
    /// A platform fresh from the extras interpreter, not yet
    /// synthesized, with its authored delay pending (if any).
    pub fn unprocessed(timer: Option<AnimationOffsetTimer>) -> (r: PlatformState)
        ensures
            r == (PlatformState { processed: false, clip: None, playing: false, timer }),
    {
        PlatformState { processed: false, clip: None, playing: false, timer }
    }
}

/// The clip a behavior synthesizes: rotations swing a quarter turn
/// with elastic ease-in/out, linear movers ping-pong between their
/// endpoints with linear easing; every clip loops and every segment
/// lasts [`SEGMENT_MS`].
pub open spec fn spec_clip_of(behavior: PlatformBehavior) -> AnimationClip {
    match behavior {
        PlatformBehavior::Rotate90X => AnimationClip {
            curve: AnimationCurve::RotateQuarter { axis: RotationAxis::X },
            easing: EaseKind::ElasticInOut,
            segment_ms: SEGMENT_MS,
            looping: true,
        },
        PlatformBehavior::Rotate90Y => AnimationClip {
            curve: AnimationCurve::RotateQuarter { axis: RotationAxis::Y },
            easing: EaseKind::ElasticInOut,
            segment_ms: SEGMENT_MS,
            looping: true,
        },
        PlatformBehavior::MoveLinear { start, end } => AnimationClip {
            curve: AnimationCurve::PingPongTranslate { start, end },
            easing: EaseKind::Linear,
            segment_ms: SEGMENT_MS,
            looping: true,
        },
    }
}

/// The behavior a platform node resolves to: rotations stand on their
/// own, a linear mover needs both endpoint markers, discovered among
/// the descendants of the platform's parent. With a marker missing the
/// platform stays unresolved for this pass.
pub open spec fn spec_resolve_behavior(
    kind: PlatformKind,
    start: Option<Vec3i>,
    end: Option<Vec3i>,
) -> Option<PlatformBehavior> {
    match kind {
        PlatformKind::Rotate90X => Some(PlatformBehavior::Rotate90X),
        PlatformKind::Rotate90Y => Some(PlatformBehavior::Rotate90Y),
        PlatformKind::MoveLinear => match (start, end) {
            (Some(s), Some(e)) => Some(PlatformBehavior::MoveLinear { start: s, end: e }),
            _ => None,
        },
    }
}

/// What one synthesizer pass does to one platform's state, given the
/// authored kind and the endpoint markers found so far.
pub open spec fn spec_setup_platform(
    st: PlatformState,
    kind: PlatformKind,
    start: Option<Vec3i>,
    end: Option<Vec3i>,
) -> PlatformState {
    if st.processed {
        st
    } else {
        match spec_resolve_behavior(kind, start, end) {
            Some(behavior) => PlatformState {
                processed: true,
                clip: Some(spec_clip_of(behavior)),
                playing: st.timer is None,
                timer: st.timer,
            },
            None => st,
        }
    }
}

/// One synthesizer pass over one platform entity: synthesize its clip
/// the first time its behavior resolves, start playback at once unless
/// an offset timer still gates it, and never touch a platform that was
/// already processed. A linear mover missing a marker is left for the
/// next pass.
pub fn setup_animation_platforms(
    st: &mut PlatformState,
    kind: PlatformKind,
    start: Option<Vec3i>,
    end: Option<Vec3i>,
)
    ensures
        *final(st) == spec_setup_platform(*old(st), kind, start, end),
{
    if st.processed {
        return ;
    }
    let behavior: Option<PlatformBehavior> = match kind {
        PlatformKind::Rotate90X => Some(PlatformBehavior::Rotate90X),
        PlatformKind::Rotate90Y => Some(PlatformBehavior::Rotate90Y),
        PlatformKind::MoveLinear => match (start, end) {
            (Some(s), Some(e)) => Some(PlatformBehavior::MoveLinear { start: s, end: e }),
            _ => None,
        },
    };
    match behavior {
        Some(b) => {
            let clip = match b {
                PlatformBehavior::Rotate90X => AnimationClip {
                    curve: AnimationCurve::RotateQuarter { axis: RotationAxis::X },
                    easing: EaseKind::ElasticInOut,
                    segment_ms: SEGMENT_MS,
                    looping: true,
                },
                PlatformBehavior::Rotate90Y => AnimationClip {
                    curve: AnimationCurve::RotateQuarter { axis: RotationAxis::Y },
                    easing: EaseKind::ElasticInOut,
                    segment_ms: SEGMENT_MS,
                    looping: true,
                },
                PlatformBehavior::MoveLinear { start: s, end: e } => AnimationClip {
                    curve: AnimationCurve::PingPongTranslate { start: s, end: e },
                    easing: EaseKind::Linear,
                    segment_ms: SEGMENT_MS,
                    looping: true,
                },
            };
            st.processed = true;
            st.clip = Some(clip);
            st.playing = st.timer.is_none();
        },
        None => {},
    }
}

/// What one timer tick does: the countdown only runs once a clip
/// exists, burns down by the frame's delta, and on reaching zero
/// resumes playback and removes itself — so it fires exactly once.
pub open spec fn spec_tick_timer(st: PlatformState, delta_ms: u64) -> PlatformState {
    if st.clip is Some {
        match st.timer {
            Some(AnimationOffsetTimer(remaining)) => if delta_ms >= remaining {
                PlatformState { playing: true, timer: None, ..st }
            } else {
                PlatformState {
                    timer: Some(AnimationOffsetTimer((remaining - delta_ms) as u64)),
                    ..st
                }
            },
            None => st,
        }
    } else {
        st
    }
}

/// Advance a platform's start-delay countdown by one frame's elapsed
/// time; when it elapses, playback resumes and the countdown is gone
/// for good.
pub fn tick_animation_offset_timer(st: &mut PlatformState, delta_ms: u64)
    ensures
        *final(st) == spec_tick_timer(*old(st), delta_ms),
{
    if st.clip.is_some() {
        match st.timer {
            Some(AnimationOffsetTimer(remaining)) => {
                if delta_ms >= remaining {
                    st.playing = true;
                    st.timer = None;
                } else {
                    st.timer = Some(AnimationOffsetTimer(remaining - delta_ms));
                }
            },
            None => {},
        }
    }
}

/// A platform is synthesized at most once: a processed platform's
/// state survives every further synthesizer pass unchanged, whatever
/// kind or markers that pass sees.
pub proof fn lemma_platform_synthesized_once(
    st: PlatformState,
    kind: PlatformKind,
    start: Option<Vec3i>,
    end: Option<Vec3i>,
)
    requires
        st.processed,
    ensures
        spec_setup_platform(st, kind, start, end) == st,
{
}

/// The offset timer fires exactly once: after the tick that finishes
/// the countdown, playback runs and every further tick leaves the
/// platform's state untouched.
pub proof fn lemma_offset_timer_fires_once(st: PlatformState, d1: u64, d2: u64)
    requires
        spec_tick_timer(st, d1).timer is None,
    ensures
        spec_tick_timer(spec_tick_timer(st, d1), d2) == spec_tick_timer(st, d1),
{
}

/// Linear interpolation on one axis: the point `t` of the way from `a`
/// to `b`, with `t` measured against one full segment.
pub open spec fn spec_lerp(a: i64, b: i64, t: int) -> int {
    if b >= a {
        a + (b - a) * t / (SEGMENT_MS as int)
    } else {
        a - (a - b) * t / (SEGMENT_MS as int)
    }
}

/// Where the four-phase linear-motion loop stands at time `t`
/// milliseconds after its start: moving towards the end during the
/// first segment, holding there for one segment, moving back during
/// the third, and holding at the start for the fourth; then over
/// again.
pub open spec fn spec_move_linear_position(start: Vec3i, end: Vec3i, t: int) -> Vec3i {
    let u = t % (PERIOD_MS as int);
    if u < SEGMENT_MS as int {
        Vec3i {
            x: spec_lerp(start.x, end.x, u) as i64,
            y: spec_lerp(start.y, end.y, u) as i64,
            z: spec_lerp(start.z, end.z, u) as i64,
        }
    } else if u < 2 * (SEGMENT_MS as int) {
        end
    } else if u < 3 * (SEGMENT_MS as int) {
        Vec3i {
            x: spec_lerp(end.x, start.x, u - 2 * (SEGMENT_MS as int)) as i64,
            y: spec_lerp(end.y, start.y, u - 2 * (SEGMENT_MS as int)) as i64,
            z: spec_lerp(end.z, start.z, u - 2 * (SEGMENT_MS as int)) as i64,
        }
    } else {
        start
    }
}

/// Interpolating to the segment's ends is exact: at time zero the
/// value is `a`, at a full segment it is `b`.
proof fn lemma_lerp_endpoints(a: i64, b: i64)
    ensures
        spec_lerp(a, b, 0) == a,
        spec_lerp(a, b, SEGMENT_MS as int) == b,
{
    if b >= a {
        assert((b - a) * 0 == 0);
        assert((b - a) * (SEGMENT_MS as int) / (SEGMENT_MS as int) == b - a) by (nonlinear_arith);
    } else {
        assert((a - b) * 0 == 0);
        assert((a - b) * (SEGMENT_MS as int) / (SEGMENT_MS as int) == a - b) by (nonlinear_arith);
    }
}

/// The synthesized linear motion starts at the start marker, stands at
/// the end marker one segment later (holding there for a full
/// segment), is back at the start three segments in (holding there
/// too), and repeats with period [`PERIOD_MS`]: it visits both
/// endpoints and returns, over and over.
pub proof fn lemma_move_linear_cycle(start: Vec3i, end: Vec3i, t: int)
    requires
        t >= 0,
    ensures
        spec_move_linear_position(start, end, 0) == start,
        spec_move_linear_position(start, end, SEGMENT_MS as int) == end,
        spec_move_linear_position(start, end, 3 * (SEGMENT_MS as int)) == start,
        spec_move_linear_position(start, end, t + PERIOD_MS as int) == spec_move_linear_position(
            start,
            end,
            t,
        ),
{
    lemma_lerp_endpoints(start.x, end.x);
    lemma_lerp_endpoints(start.y, end.y);
    lemma_lerp_endpoints(start.z, end.z);
    assert(0int % (PERIOD_MS as int) == 0);
    assert((SEGMENT_MS as int) % (PERIOD_MS as int) == SEGMENT_MS as int);
    assert((3 * (SEGMENT_MS as int)) % (PERIOD_MS as int) == 3 * (SEGMENT_MS as int));
    vstd::arithmetic::div_mod::lemma_mod_add_multiples_vanish(t, PERIOD_MS as int);
    assert((t + PERIOD_MS as int) % (PERIOD_MS as int) == t % (PERIOD_MS as int));
}

/// Interpolate one axis of the first motion segment.
fn lerp_axis(a: i64, b: i64, t: u64) -> (r: i64)
    requires
        -crate::math::COORD_LIMIT <= a <= crate::math::COORD_LIMIT,
        -crate::math::COORD_LIMIT <= b <= crate::math::COORD_LIMIT,
        t <= SEGMENT_MS,
    ensures
        r == spec_lerp(a, b, t as int),
        -crate::math::COORD_LIMIT <= r <= crate::math::COORD_LIMIT,
{
    let ti = t as i64;
    if b >= a {
        let diff = b - a;
        proof {
            lemma_scale_bounds(diff as int, ti as int);
        }
        let prod = diff * ti;
        let scaled = prod / (SEGMENT_MS as i64);
        proof {
            lemma_scaled_in_range(diff as int, ti as int);
        }
        a + scaled
    } else {
        let diff = a - b;
        proof {
            lemma_scale_bounds(diff as int, ti as int);
        }
        let prod = diff * ti;
        let scaled = prod / (SEGMENT_MS as i64);
        proof {
            lemma_scaled_in_range(diff as int, ti as int);
        }
        a - scaled
    }
}

/// The product of a bounded distance and a segment-bounded time fits
/// comfortably in 64 bits.
proof fn lemma_scale_bounds(diff: int, ti: int)
    requires
        0 <= diff <= 2 * crate::math::COORD_LIMIT,
        0 <= ti <= SEGMENT_MS as int,
    ensures
        0 <= diff * ti <= 2 * (crate::math::COORD_LIMIT as int) * (SEGMENT_MS as int),
{
    assert(0 <= diff * ti && diff * ti <= 2 * (crate::math::COORD_LIMIT as int) * (
    SEGMENT_MS as int)) by (nonlinear_arith)
        requires
            0 <= diff <= 2 * crate::math::COORD_LIMIT,
            0 <= ti <= SEGMENT_MS as int,
    ;
}

/// Interpolation never moves past the far endpoint: the scaled offset
/// stays between zero and the full distance.
proof fn lemma_scaled_in_range(diff: int, ti: int)
    requires
        0 <= diff,
        0 <= ti <= SEGMENT_MS as int,
    ensures
        0 <= diff * ti / (SEGMENT_MS as int) <= diff,
{
    assert(0 <= diff * ti / (SEGMENT_MS as int) <= diff) by (nonlinear_arith)
        requires
            0 <= diff,
            0 <= ti <= SEGMENT_MS as int,
    ;
}

/// Sample the four-phase linear-motion loop at `t_ms` milliseconds
/// after its start.
pub fn move_linear_position(start: Vec3i, end: Vec3i, t_ms: u64) -> (r: Vec3i)
    requires
        start.in_bounds(),
        end.in_bounds(),
    ensures
        r == spec_move_linear_position(start, end, t_ms as int),
{
    let u = t_ms % PERIOD_MS;
    if u < SEGMENT_MS {
        Vec3i {
            x: lerp_axis(start.x, end.x, u),
            y: lerp_axis(start.y, end.y, u),
            z: lerp_axis(start.z, end.z, u),
        }
    } else if u < 2 * SEGMENT_MS {
        end
    } else if u < 3 * SEGMENT_MS {
        Vec3i {
            x: lerp_axis(end.x, start.x, u - 2 * SEGMENT_MS),
            y: lerp_axis(end.y, start.y, u - 2 * SEGMENT_MS),
            z: lerp_axis(end.z, start.z, u - 2 * SEGMENT_MS),
        }
    } else {
        start
    }
}

} // verus!
