use video_streaming::controller::AXIS_FULL_SCALE;
use video_streaming::{compute_h_bridge_input_signals, OculusControllerState};

fn axis(v: f32) -> i32 {
    (v * AXIS_FULL_SCALE as f32) as i32
}

#[test]
fn test_primary_controller_y_min() {
    let mut state = OculusControllerState::default();
    state.mut_primary_thumbstick().set_y(axis(-1f32));
    let (in1, in2) = compute_h_bridge_input_signals(state);
    assert_eq!((in1, in2), (0, 75))
}

#[test]
fn test_primary_controller_y_max() {
    let mut state = OculusControllerState::default();
    state.mut_primary_thumbstick().set_y(axis(1f32));
    let (in1, in2) = compute_h_bridge_input_signals(state);
    assert_eq!((in1, in2), (75, 0))
}

#[test]
fn test_primary_controller_y_zero() {
    let mut state = OculusControllerState::default();
    state.mut_primary_thumbstick().set_y(axis(0f32));
    let (in1, in2) = compute_h_bridge_input_signals(state);
    assert_eq!((in1, in2), (0, 0))
}

#[test]
fn half_deflection_truncates_toward_zero() {
    let mut state = OculusControllerState::default();
    state.mut_primary_thumbstick().set_y(500_000);
    assert_eq!(compute_h_bridge_input_signals(state), (37, 0));
    state.mut_primary_thumbstick().set_y(-500_000);
    assert_eq!(compute_h_bridge_input_signals(state), (0, 37));
}

#[test]
fn extreme_readings_saturate() {
    let mut state = OculusControllerState::default();
    state.mut_primary_thumbstick().set_y(i32::MAX);
    assert_eq!(compute_h_bridge_input_signals(state), (32767, 0));
    state.mut_primary_thumbstick().set_y(i32::MIN);
    assert_eq!(compute_h_bridge_input_signals(state), (0, 32767));
}
