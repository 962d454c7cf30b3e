//! Locomotion state machine and per-frame input translation.
//!
//! Each simulated frame the host samples the keyboard and the physics
//! snapshot, then drives two verified steps. `apply_input` processes the
//! jump and duck edges and the held movement keys: it updates the
//! locomotion flags, returns the vertical impulse to add this frame, and
//! names which unit directions enter the horizontal movement sum. The host
//! sums those direction vectors (the only floating-point work) and reports
//! whether the sum was exactly zero; `finish_frame` then settles the flags
//! and decides how the horizontal velocity is written.

use vstd::prelude::*;

verus! {

/// Vertical impulse added on a grounded jump press.
pub const JUMP_IMPULSE: i32 = 40;

/// Vertical impulse added once per airborne duck-press episode (fast fall).
pub const FAST_FALL_IMPULSE: i32 = -40;

/// Horizontal speed while sliding.
pub const SLIDE_SPEED: u32 = 30;

/// Horizontal speed while ducking without a slide.
pub const DUCK_SPEED: u32 = 5;

/// Horizontal speed while walking upright.
pub const NORMAL_SPEED: u32 = 15;

/// Per-frame readings of the movement controls: held state of the four
/// direction keys, and the press/release edges of jump and duck.
#[derive(Clone, Copy, PartialEq, Eq, Structural, Debug)]
pub struct KeyInput {
    pub forward: bool,
    pub back: bool,
    pub left: bool,
    pub right: bool,
    pub jump_just_pressed: bool,
    pub duck_just_pressed: bool,
    pub duck_just_released: bool,
}

/// The controlled entity's semantic movement flags.
#[derive(Clone, Copy, PartialEq, Eq, Structural, Debug)]
pub struct LocomotionState {
    /// A non-zero horizontal movement intent was produced this frame.
    pub moving: bool,
    /// The duck control is held (and no slide replaced it).
    pub ducking: bool,
    /// A slide is in progress: momentum is captured, steering is disabled.
    pub sliding: bool,
    /// The one-shot airborne fast-fall impulse has already fired.
    pub pushing_down: bool,
}

impl LocomotionState {
    /// The state an entity spawns with: at rest, upright, grounded.
    pub fn at_rest() -> (r: LocomotionState)
        ensures
            r == (LocomotionState { moving: false, ducking: false, sliding: false, pushing_down: false }),
    {
        LocomotionState { moving: false, ducking: false, sliding: false, pushing_down: false }
    }
}

/// Which unit directions enter this frame's horizontal movement sum. The
/// host resolves each flag to the entity's corresponding local-plane axis,
/// renormalized to the horizontal plane; `momentum` stands for the current
/// horizontal impulse direction that a slide captures.
#[derive(Clone, Copy, PartialEq, Eq, Structural, Debug)]
pub struct MoveContrib {
    pub right: bool,
    pub left: bool,
    pub back: bool,
    pub forward: bool,
    pub momentum: bool,
}

/// How the horizontal velocity is written at the end of the frame: left
/// alone (airborne with no input), set to exactly zero, or set to the
/// normalized movement sum scaled by the given speed.
#[derive(Clone, Copy, PartialEq, Eq, Structural, Debug)]
pub enum VelocityAction {
    Keep,
    SetZero,
    SetScaled { scale: u32 },
}

/// No direction entered the movement sum this frame, so the sum is exactly
/// the zero vector.
pub open spec fn contrib_none(c: MoveContrib) -> bool {
    !c.right && !c.left && !c.back && !c.forward && !c.momentum
}

/// The locomotion flags after the key pass of one frame: duck press, duck
/// release, then the four direction keys in order, with slide entry on
/// forward while ducking and grounded. `moving` is set as soon as any
/// direction enters the movement sum — slide momentum included, since a
/// slide frame produces a non-zero movement intent like any other.
pub open spec fn spec_after_input(
    st: LocomotionState,
    input: KeyInput,
    grounded: bool,
    impulse_small: bool,
) -> LocomotionState {
    let ducking_pressed = if input.duck_just_pressed { true } else { st.ducking };
    let pushing = st.pushing_down || (input.duck_just_pressed && !grounded && impulse_small);
    let sliding_kept = st.sliding && !input.duck_just_released;
    let ducking_kept = if input.duck_just_released { false } else { ducking_pressed };
    let enter_slide = input.forward && !sliding_kept && ducking_kept && grounded;
    LocomotionState {
        moving: st.moving || (input.right && !sliding_kept) || (input.left && !sliding_kept)
            || (input.back && !sliding_kept) || input.forward,
        ducking: ducking_kept && !enter_slide,
        sliding: sliding_kept || enter_slide,
        pushing_down: pushing,
    }
}

/// The vertical impulse added this frame: the jump impulse on a grounded
/// jump-press edge, the fast-fall impulse on an airborne duck-press edge
/// while the vertical impulse is still small and `pushing_down` has not
/// fired yet. The two conditions exclude each other.
pub open spec fn spec_impulse_delta(
    st: LocomotionState,
    input: KeyInput,
    grounded: bool,
    impulse_small: bool,
) -> int {
    let jump: int = if input.jump_just_pressed && grounded { JUMP_IMPULSE as int } else { 0 };
    let fall: int = if input.duck_just_pressed && !grounded && impulse_small && !st.pushing_down {
        FAST_FALL_IMPULSE as int
    } else {
        0
    };
    jump + fall
}

/// The directions that enter the movement sum. A slide that survives the
/// duck-release edge suppresses all steering: only the captured momentum
/// direction remains, and only while forward is held.
pub open spec fn spec_contrib(st: LocomotionState, input: KeyInput) -> MoveContrib {
    let sliding_kept = st.sliding && !input.duck_just_released;
    MoveContrib {
        right: input.right && !sliding_kept,
        left: input.left && !sliding_kept,
        back: input.back && !sliding_kept,
        forward: input.forward && !sliding_kept,
        momentum: input.forward && sliding_kept,
    }
}

/// The flags after the end-of-frame pass: a zero movement sum clears
/// `moving` and exits a slide into ducking; grounding clears `pushing_down`.
pub open spec fn spec_finish(st: LocomotionState, grounded: bool, mov_zero: bool) -> LocomotionState {
    let settled = if mov_zero {
        LocomotionState {
            moving: false,
            ducking: st.ducking || st.sliding,
            sliding: false,
            pushing_down: st.pushing_down,
        }
    } else {
        st
    };
    LocomotionState {
        moving: settled.moving,
        ducking: settled.ducking,
        sliding: settled.sliding,
        pushing_down: settled.pushing_down && !grounded,
    }
}

/// How the horizontal velocity is written, from the flags as they stand
/// after the key pass: a zero movement sum sets it to exactly zero when
/// grounded and leaves it alone when airborne; otherwise it is set to the
/// slide, duck or normal speed.
pub open spec fn spec_velocity_action(st: LocomotionState, grounded: bool, mov_zero: bool) -> VelocityAction {
    if mov_zero {
        if grounded {
            VelocityAction::SetZero
        } else {
            VelocityAction::Keep
        }
    } else {
        VelocityAction::SetScaled {
            scale: if st.sliding {
                SLIDE_SPEED
            } else if st.ducking {
                DUCK_SPEED
            } else {
                NORMAL_SPEED
            },
        }
    }
}

/// The locomotion flags after one whole frame.
pub open spec fn spec_tick_state(
    st: LocomotionState,
    input: KeyInput,
    grounded: bool,
    impulse_small: bool,
    mov_zero: bool,
) -> LocomotionState {
    spec_finish(spec_after_input(st, input, grounded, impulse_small), grounded, mov_zero)
}

/// Key pass of one frame. `grounded` is the physics snapshot's
/// `position.y <= 0`; `impulse_small` is `vertical impulse < 10`, sampled
/// at frame start (the jump impulse lands only on grounded frames, where
/// the fast-fall gate is off anyway, so the start-of-frame sample decides
/// exactly as the live value would).
///
/// Returns the vertical impulse to add this frame and the directions that
/// enter the horizontal movement sum.
pub fn apply_input(
    st: &mut LocomotionState,
    input: KeyInput,
    grounded: bool,
    impulse_small: bool,
) -> (r: (i32, MoveContrib))
    ensures
        *final(st) == spec_after_input(*old(st), input, grounded, impulse_small),
        r.0 as int == spec_impulse_delta(*old(st), input, grounded, impulse_small),
        r.1 == spec_contrib(*old(st), input),
{
    let mut delta: i32 = 0;
    let mut dirs = MoveContrib { right: false, left: false, back: false, forward: false, momentum: false };

    if input.jump_just_pressed && grounded {
        delta = delta + JUMP_IMPULSE;
    }

    if input.duck_just_pressed {
        st.ducking = true;
        if !grounded && impulse_small && !st.pushing_down {
            st.pushing_down = true;
            delta = delta + FAST_FALL_IMPULSE;
        }
    }

    if input.duck_just_released {
        if st.sliding {
            st.sliding = false;
        }
        st.ducking = false;
    }

    if input.right && !st.sliding {
        dirs.right = true;
        st.moving = true;
    }
    if input.left && !st.sliding {
        dirs.left = true;
        st.moving = true;
    }
    if input.back && !st.sliding {
        dirs.back = true;
        st.moving = true;
    }
    if input.forward {
        if st.sliding {
            dirs.momentum = true;
        } else if st.ducking && grounded {
            st.sliding = true;
            st.ducking = false;
            dirs.forward = true;
        } else {
            dirs.forward = true;
        }
        st.moving = true;
    }

    (delta, dirs)
}

/// Whether any direction entered the movement sum. When this is false the
/// host's sum is the zero vector with no arithmetic at all, so the
/// `mov_zero` it reports to `finish_frame` must be true.
pub fn has_contrib(c: &MoveContrib) -> (r: bool)
    ensures
        r == !contrib_none(*c),
{
    c.right || c.left || c.back || c.forward || c.momentum
}

/// End-of-frame pass. `mov_zero` reports whether the movement sum built
/// from `dirs` came out as exactly the zero vector; an empty sum is
/// zero, which the precondition pins down.
pub fn finish_frame(
    st: &mut LocomotionState,
    dirs: MoveContrib,
    grounded: bool,
    mov_zero: bool,
) -> (r: VelocityAction)
    requires
        contrib_none(dirs) ==> mov_zero,
    ensures
        *final(st) == spec_finish(*old(st), grounded, mov_zero),
        r == spec_velocity_action(*old(st), grounded, mov_zero),
{
    let action: VelocityAction;
    if mov_zero {
        st.moving = false;
        if st.sliding {
            st.sliding = false;
            st.ducking = true;
        }
        action = if grounded { VelocityAction::SetZero } else { VelocityAction::Keep };
    } else {
        let scale: u32 = if st.sliding {
            SLIDE_SPEED
        } else if st.ducking {
            DUCK_SPEED
        } else {
            NORMAL_SPEED
        };
        action = VelocityAction::SetScaled { scale };
    }
    if grounded {
        st.pushing_down = false;
    }
    action
}

/// Everything one frame depends on besides the keys: whether the entity is
/// grounded, whether the vertical impulse is still small, and whether the
/// host's movement sum came out as exactly zero.
#[derive(Clone, Copy, PartialEq, Eq, Structural, Debug)]
pub struct FrameEnv {
    pub input: KeyInput,
    pub grounded: bool,
    pub impulse_small: bool,
    pub mov_zero: bool,
}

/// How many frames of a run add the fast-fall impulse.
pub open spec fn count_fast_falls(st: LocomotionState, frames: Seq<FrameEnv>) -> nat
    decreases frames.len(),
{
    if frames.len() == 0 {
        0
    } else {
        (if spec_impulse_delta(st, frames[0].input, frames[0].grounded, frames[0].impulse_small)
            == FAST_FALL_IMPULSE as int {
            1nat
        } else {
            0nat
        }) + count_fast_falls(
            spec_tick_state(st, frames[0].input, frames[0].grounded, frames[0].impulse_small, frames[0].mov_zero),
            frames.subrange(1, frames.len() as int),
        )
    }
}

/// A frame with no movement key held and no slide in progress contributes
/// no direction to the movement sum — the sum is exactly the zero vector —
/// so the frame clears `moving`, and when grounded it sets the horizontal
/// velocity to exactly zero.
pub proof fn lemma_idle_frame_stops(
    st: LocomotionState,
    input: KeyInput,
    grounded: bool,
    impulse_small: bool,
)
    requires
        !input.forward,
        !input.back,
        !input.left,
        !input.right,
        !st.sliding,
    ensures
        contrib_none(spec_contrib(st, input)),
        !spec_tick_state(st, input, grounded, impulse_small, true).moving,
        spec_velocity_action(spec_after_input(st, input, grounded, impulse_small), grounded, true)
            == if grounded { VelocityAction::SetZero } else { VelocityAction::Keep },
{
}

/// The jump impulse is added exactly when the jump key's press edge meets a
/// grounded frame. The model reads only the edge, never the held state, so
/// a key held across frames cannot add it again; and no other frame adds a
/// positive impulse at all.
pub proof fn lemma_jump_on_edge_only(
    st: LocomotionState,
    input: KeyInput,
    grounded: bool,
    impulse_small: bool,
)
    ensures
        spec_impulse_delta(st, input, grounded, impulse_small) == JUMP_IMPULSE as int
            <==> (input.jump_just_pressed && grounded),
        !(input.jump_just_pressed && grounded)
            ==> spec_impulse_delta(st, input, grounded, impulse_small) <= 0,
{
}

/// The fast-fall impulse fires exactly on an airborne duck-press edge with
/// a small vertical impulse while `pushing_down` has not fired yet, and the
/// frame that fires it sets `pushing_down`; while airborne, `pushing_down`
/// never clears. The duck flag itself is set on the press edge regardless —
/// an airborne press (duck not released the same frame) leaves the entity
/// ducking whether or not the impulse fired.
pub proof fn lemma_fast_fall_gate(
    st: LocomotionState,
    input: KeyInput,
    grounded: bool,
    impulse_small: bool,
    mov_zero: bool,
)
    ensures
        spec_impulse_delta(st, input, grounded, impulse_small) == FAST_FALL_IMPULSE as int
            <==> (input.duck_just_pressed && !grounded && impulse_small && !st.pushing_down),
        spec_impulse_delta(st, input, grounded, impulse_small) == FAST_FALL_IMPULSE as int
            ==> spec_after_input(st, input, grounded, impulse_small).pushing_down,
        !grounded && st.pushing_down
            ==> spec_tick_state(st, input, grounded, impulse_small, mov_zero).pushing_down,
        input.duck_just_pressed && !input.duck_just_released && !grounded
            ==> spec_after_input(st, input, grounded, impulse_small).ducking,
{
}

/// While `pushing_down` is set and the entity stays airborne, no frame of
/// the run adds the fast-fall impulse.
pub proof fn lemma_pushing_down_blocks_fast_fall(st: LocomotionState, frames: Seq<FrameEnv>)
    requires
        st.pushing_down,
        forall|i: int| 0 <= i < frames.len() ==> !frames[i].grounded,
    ensures
        count_fast_falls(st, frames) == 0,
    decreases frames.len(),
{
    if frames.len() > 0 {
        let next = spec_tick_state(st, frames[0].input, frames[0].grounded, frames[0].impulse_small, frames[0].mov_zero);
        let rest = frames.subrange(1, frames.len() as int);
        assert(forall|i: int| 0 <= i < rest.len() ==> !rest[i].grounded);
        lemma_pushing_down_blocks_fast_fall(next, rest);
    }
}

/// Over any run of frames that stay airborne, the fast-fall impulse is
/// added at most once: releasing and re-pressing duck mid-air does not
/// re-trigger it, only grounding resets the guard.
pub proof fn lemma_fast_fall_once_per_airborne_episode(st: LocomotionState, frames: Seq<FrameEnv>)
    requires
        forall|i: int| 0 <= i < frames.len() ==> !frames[i].grounded,
    ensures
        count_fast_falls(st, frames) <= 1,
    decreases frames.len(),
{
    if frames.len() > 0 {
        let next = spec_tick_state(st, frames[0].input, frames[0].grounded, frames[0].impulse_small, frames[0].mov_zero);
        let rest = frames.subrange(1, frames.len() as int);
        assert(forall|i: int| 0 <= i < rest.len() ==> !rest[i].grounded);
        if spec_impulse_delta(st, frames[0].input, frames[0].grounded, frames[0].impulse_small)
            == FAST_FALL_IMPULSE as int {
            lemma_pushing_down_blocks_fast_fall(next, rest);
        } else {
            lemma_fast_fall_once_per_airborne_episode(next, rest);
        }
    }
}

/// Releasing forward while a slide is in progress (duck still held, so the
/// slide survives the duck edges) leaves no direction in the movement sum,
/// and the same frame ends the slide and drops into ducking.
pub proof fn lemma_slide_exit_to_duck(
    st: LocomotionState,
    input: KeyInput,
    grounded: bool,
    impulse_small: bool,
)
    requires
        st.sliding,
        !input.forward,
        !input.duck_just_released,
    ensures
        contrib_none(spec_contrib(st, input)),
        !spec_tick_state(st, input, grounded, impulse_small, true).sliding,
        spec_tick_state(st, input, grounded, impulse_small, true).ducking,
{
}

/// At frame end `moving` holds exactly when a non-zero horizontal movement
/// intent was produced this frame: some direction — slide momentum included
/// — entered the sum, and the sum was not the zero vector. (An empty sum is
/// zero, which the hypothesis pins down, as `finish_frame` does.)
pub proof fn lemma_moving_iff_intent(
    st: LocomotionState,
    input: KeyInput,
    grounded: bool,
    impulse_small: bool,
    mov_zero: bool,
)
    requires
        contrib_none(spec_contrib(st, input)) ==> mov_zero,
    ensures
        spec_tick_state(st, input, grounded, impulse_small, mov_zero).moving == !mov_zero,
{
}

/// The horizontal speed written on a frame with a non-zero movement sum is
/// exactly the slide, duck or normal scale, decided by the flags as they
/// stand after the key pass.
pub proof fn lemma_speed_scale(st: LocomotionState, grounded: bool)
    ensures
        spec_velocity_action(st, grounded, false) == (VelocityAction::SetScaled {
            scale: if st.sliding {
                SLIDE_SPEED
            } else if st.ducking {
                DUCK_SPEED
            } else {
                NORMAL_SPEED
            },
        }),
{
}

} // verus!
