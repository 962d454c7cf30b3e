use player_core::locomotion::{
    apply_input, finish_frame, has_contrib, KeyInput, LocomotionState, MoveContrib, VelocityAction,
    DUCK_SPEED, FAST_FALL_IMPULSE, JUMP_IMPULSE, NORMAL_SPEED, SLIDE_SPEED,
};

fn no_keys() -> KeyInput {
    KeyInput {
        forward: false,
        back: false,
        left: false,
        right: false,
        jump_just_pressed: false,
        duck_just_pressed: false,
        duck_just_released: false,
    }
}

/// Run one whole frame the way the host does: key pass, then the movement
/// sum (empty here means exactly zero), then the end-of-frame pass.
fn run_frame(
    st: &mut LocomotionState,
    input: KeyInput,
    grounded: bool,
    impulse_small: bool,
    sum_is_zero_when_nonempty: bool,
) -> (i32, MoveContrib, VelocityAction) {
    let (delta, dirs) = apply_input(st, input, grounded, impulse_small);
    let mov_zero = if has_contrib(&dirs) { sum_is_zero_when_nonempty } else { true };
    let action = finish_frame(st, dirs, grounded, mov_zero);
    (delta, dirs, action)
}

#[test]
fn at_rest_state_is_all_clear() {
    let st = LocomotionState::at_rest();
    assert!(!st.moving && !st.ducking && !st.sliding && !st.pushing_down);
}

#[test]
fn idle_grounded_frame_zeroes_velocity() {
    let mut st = LocomotionState { moving: true, ducking: false, sliding: false, pushing_down: false };
    let (delta, dirs, action) = run_frame(&mut st, no_keys(), true, true, false);
    assert_eq!(delta, 0);
    assert!(!has_contrib(&dirs));
    assert_eq!(action, VelocityAction::SetZero);
    assert!(!st.moving);
}

#[test]
fn idle_airborne_frame_keeps_velocity() {
    let mut st = LocomotionState::at_rest();
    let (_, _, action) = run_frame(&mut st, no_keys(), false, true, false);
    assert_eq!(action, VelocityAction::Keep);
    assert!(!st.moving);
}

#[test]
fn jump_adds_impulse_once_on_grounded_edge() {
    let mut st = LocomotionState::at_rest();
    let mut input = no_keys();
    input.jump_just_pressed = true;
    let (delta, _, _) = run_frame(&mut st, input, true, true, false);
    assert_eq!(delta, JUMP_IMPULSE);
    assert_eq!(delta, 40);

    // The key is still held the next frame, but the edge is gone.
    let held = no_keys();
    let (delta2, _, _) = run_frame(&mut st, held, true, true, false);
    assert_eq!(delta2, 0);
}

#[test]
fn jump_edge_airborne_adds_nothing() {
    let mut st = LocomotionState::at_rest();
    let mut input = no_keys();
    input.jump_just_pressed = true;
    let (delta, _, _) = run_frame(&mut st, input, false, true, false);
    assert_eq!(delta, 0);
}

#[test]
fn fast_fall_fires_once_per_airborne_episode() {
    let mut st = LocomotionState::at_rest();
    let mut press = no_keys();
    press.duck_just_pressed = true;
    let mut release = no_keys();
    release.duck_just_released = true;

    // Airborne duck press: the impulse fires and the guard latches.
    let (delta, _, _) = run_frame(&mut st, press, false, true, false);
    assert_eq!(delta, FAST_FALL_IMPULSE);
    assert_eq!(delta, -40);
    assert!(st.pushing_down);

    // Release and re-press while still airborne: no second impulse.
    let (d2, _, _) = run_frame(&mut st, release, false, true, false);
    assert_eq!(d2, 0);
    let (d3, _, _) = run_frame(&mut st, press, false, true, false);
    assert_eq!(d3, 0);
    assert!(st.pushing_down);

    // A grounded frame resets the guard; the next airborne press fires again.
    let (_, _, _) = run_frame(&mut st, release, true, true, false);
    assert!(!st.pushing_down);
    let (d4, _, _) = run_frame(&mut st, press, false, true, false);
    assert_eq!(d4, FAST_FALL_IMPULSE);
}

#[test]
fn fast_fall_blocked_by_large_impulse() {
    let mut st = LocomotionState::at_rest();
    let mut press = no_keys();
    press.duck_just_pressed = true;
    let (delta, _, _) = run_frame(&mut st, press, false, false, false);
    assert_eq!(delta, 0);
    assert!(!st.pushing_down);
    // The duck flag is still set immediately on the press, even airborne.
    assert!(st.ducking);
}

#[test]
fn normal_speed_is_fifteen() {
    let mut st = LocomotionState::at_rest();
    let mut input = no_keys();
    input.forward = true;
    let (_, dirs, action) = run_frame(&mut st, input, true, true, false);
    assert!(dirs.forward && !dirs.momentum);
    assert_eq!(action, VelocityAction::SetScaled { scale: NORMAL_SPEED });
    assert_eq!(action, VelocityAction::SetScaled { scale: 15 });
    assert!(st.moving);
}

#[test]
fn duck_speed_is_five() {
    let mut st = LocomotionState::at_rest();
    let mut input = no_keys();
    input.back = true;
    input.duck_just_pressed = true;
    let (_, _, action) = run_frame(&mut st, input, true, true, false);
    assert_eq!(action, VelocityAction::SetScaled { scale: DUCK_SPEED });
    assert_eq!(action, VelocityAction::SetScaled { scale: 5 });
}

#[test]
fn slide_speed_is_thirty() {
    // Ducking, grounded, forward pressed: the slide starts this frame and
    // the velocity is written at the slide scale.
    let mut st = LocomotionState { moving: false, ducking: true, sliding: false, pushing_down: false };
    let mut input = no_keys();
    input.forward = true;
    let (_, dirs, action) = run_frame(&mut st, input, true, true, false);
    assert!(dirs.forward);
    assert!(st.sliding && !st.ducking);
    assert!(st.moving);
    assert_eq!(action, VelocityAction::SetScaled { scale: SLIDE_SPEED });
    assert_eq!(action, VelocityAction::SetScaled { scale: 30 });
}

#[test]
fn slide_needs_ground() {
    let mut st = LocomotionState { moving: false, ducking: true, sliding: false, pushing_down: false };
    let mut input = no_keys();
    input.forward = true;
    let (_, _, action) = run_frame(&mut st, input, false, true, false);
    assert!(!st.sliding && st.ducking);
    assert_eq!(action, VelocityAction::SetScaled { scale: DUCK_SPEED });
}

#[test]
fn slide_suppresses_steering() {
    let mut st = LocomotionState { moving: false, ducking: false, sliding: true, pushing_down: false };
    let mut input = no_keys();
    input.forward = true;
    input.left = true;
    input.back = true;
    let (_, dirs, action) = run_frame(&mut st, input, true, true, false);
    assert!(dirs.momentum);
    assert!(!dirs.forward && !dirs.left && !dirs.back && !dirs.right);
    assert_eq!(action, VelocityAction::SetScaled { scale: 30 });
    assert!(st.sliding);
    // A slide frame produces a non-zero movement intent, so it is a moving frame.
    assert!(st.moving);
}

#[test]
fn releasing_forward_exits_slide_into_duck() {
    let mut st = LocomotionState { moving: true, ducking: false, sliding: true, pushing_down: false };
    let (_, dirs, action) = run_frame(&mut st, no_keys(), true, true, false);
    assert!(!has_contrib(&dirs));
    assert!(!st.sliding);
    assert!(st.ducking);
    assert!(!st.moving);
    assert_eq!(action, VelocityAction::SetZero);
}

#[test]
fn duck_release_ends_slide_and_duck() {
    let mut st = LocomotionState { moving: true, ducking: false, sliding: true, pushing_down: false };
    let mut input = no_keys();
    input.forward = true;
    input.duck_just_released = true;
    let (_, dirs, action) = run_frame(&mut st, input, true, true, false);
    assert!(!st.sliding && !st.ducking);
    assert!(dirs.forward && !dirs.momentum);
    assert_eq!(action, VelocityAction::SetScaled { scale: 15 });
}

#[test]
fn grounded_slide_scenario_two_ticks() {
    // Grounded, forward and duck pressed together for one tick, then duck
    // released: the slide is entered and exited within two ticks, ending
    // with ducking and sliding clear and moving reflecting the held key.
    let mut st = LocomotionState::at_rest();

    let mut tick1 = no_keys();
    tick1.forward = true;
    tick1.duck_just_pressed = true;
    let (_, _, action1) = run_frame(&mut st, tick1, true, true, false);
    assert!(st.sliding && !st.ducking);
    assert!(st.moving);
    assert_eq!(action1, VelocityAction::SetScaled { scale: 30 });

    let mut tick2 = no_keys();
    tick2.forward = true;
    tick2.duck_just_released = true;
    let (_, _, action2) = run_frame(&mut st, tick2, true, true, false);
    assert!(!st.sliding);
    assert!(!st.ducking);
    assert!(st.moving);
    assert_eq!(action2, VelocityAction::SetScaled { scale: 15 });
}

#[test]
fn opposed_keys_cancel_to_zero_velocity() {
    // Left and right cancel exactly: the host's sum is the zero vector even
    // though directions entered it.
    let mut st = LocomotionState::at_rest();
    let mut input = no_keys();
    input.left = true;
    input.right = true;
    let (_, dirs, action) = run_frame(&mut st, input, true, true, true);
    assert!(has_contrib(&dirs));
    assert_eq!(action, VelocityAction::SetZero);
    assert!(!st.moving);
}

#[test]
fn slide_momentum_frame_sets_moving() {
    // Slide entered from a standing duck: every frame of the slide writes
    // velocity at scale 30 and reports a movement intent.
    let mut st = LocomotionState { moving: false, ducking: false, sliding: true, pushing_down: false };
    let mut input = no_keys();
    input.forward = true;
    let (_, dirs, action) = run_frame(&mut st, input, true, true, false);
    assert!(dirs.momentum);
    assert_eq!(action, VelocityAction::SetScaled { scale: 30 });
    assert!(st.moving);
}
