use player_core::look::{look_active, select_orientation};

#[test]
fn pitch_past_vertical_keeps_only_yaw() {
    // Stand-in orientation tokens: what matters is which one comes back.
    let yawed = 1u32;
    let pitched = 2u32;
    assert_eq!(select_orientation(yawed, pitched, false), yawed);
}

#[test]
fn pitch_above_horizon_is_kept() {
    let yawed = 1u32;
    let pitched = 2u32;
    assert_eq!(select_orientation(yawed, pitched, true), pitched);
}

#[test]
fn look_runs_only_with_focused_captured_window_and_entity() {
    assert!(look_active(true, true, true, true));
    assert!(!look_active(false, true, true, true));
    assert!(!look_active(true, false, true, true));
    assert!(!look_active(true, true, false, true));
    assert!(!look_active(true, true, true, false));
}
