//! Look-controller decisions: when mouse motion is consumed at all, and the
//! pitch-flip guard that keeps the view from rotating past vertical.
//!
//! For each relative mouse sample the host composes two candidate
//! orientations onto the current one: the yaw-only rotation, and that yaw
//! with the sample's pitch on top. It also evaluates whether the pitched
//! candidate's rotated up-axis still has a positive world-up component;
//! `select_orientation` then makes the verified choice between the two.

use vstd::prelude::*;

verus! {

/// The orientation kept for one mouse sample: the pitched candidate when
/// its up-axis stays above the horizon, else the yaw-only one.
pub open spec fn spec_selected<T>(yawed: T, pitched: T, pitched_up_positive: bool) -> T {
    if pitched_up_positive {
        pitched
    } else {
        yawed
    }
}

/// Whether the look controller runs this frame: it needs a primary window
/// that is focused, an active cursor capture, and a controlled entity to
/// rotate. Otherwise the mouse samples have no effect.
pub fn look_active(
    window_present: bool,
    window_focused: bool,
    cursor_captured: bool,
    entity_present: bool,
) -> (r: bool)
    ensures
        r == (window_present && window_focused && cursor_captured && entity_present),
{
    window_present && window_focused && cursor_captured && entity_present
}

/// Pitch-flip guard: keep the pitched candidate only when its rotated
/// up-axis still points above the horizon; a sample that would flip the
/// view past vertical keeps only its yaw component.
pub fn select_orientation<T>(yawed: T, pitched: T, pitched_up_positive: bool) -> (r: T)
    ensures
        r == spec_selected(yawed, pitched, pitched_up_positive),
{
    if pitched_up_positive {
        pitched
    } else {
        yawed
    }
}

/// A candidate whose up-axis does not point above the horizon is never the
/// selected orientation (unless it coincides with the yaw-only one).
pub proof fn lemma_pitch_guard<T>(yawed: T, pitched: T, pitched_up_positive: bool)
    ensures
        !pitched_up_positive ==> spec_selected(yawed, pitched, pitched_up_positive) == yawed,
        spec_selected(yawed, pitched, pitched_up_positive) == pitched
            || spec_selected(yawed, pitched, pitched_up_positive) == yawed,
{
}

/// Whether the kept orientation's up-axis points above the horizon after a
/// run of mouse samples, one entry of `pitched_ok` per sample saying
/// whether that sample's pitched candidate stayed above the horizon. A
/// rotation about the world up-axis leaves the rotated up-axis' world-up
/// component as it was, so the yaw-only candidate is above the horizon
/// exactly when the incoming orientation is: the sample keeps an
/// above-horizon orientation when its pitch was accepted or the incoming
/// orientation already was above.
pub open spec fn run_pitch_guard(up_positive: bool, pitched_ok: Seq<bool>) -> bool
    decreases pitched_ok.len(),
{
    if pitched_ok.len() == 0 {
        up_positive
    } else {
        run_pitch_guard(pitched_ok[0] || up_positive, pitched_ok.subrange(1, pitched_ok.len() as int))
    }
}

/// An orientation that starts above the horizon never ends past vertical,
/// whatever sequence of mouse samples arrives: the guard discards every
/// pitch that would flip it, and yaw alone cannot.
pub proof fn lemma_never_flips(up_positive: bool, pitched_ok: Seq<bool>)
    requires
        up_positive,
    ensures
        run_pitch_guard(up_positive, pitched_ok),
    decreases pitched_ok.len(),
{
    if pitched_ok.len() > 0 {
        lemma_never_flips(true, pitched_ok.subrange(1, pitched_ok.len() as int));
    }
}

} // verus!
