use multicopter::{axis, OperatorInput, SetpointLatch, SetpointSteps};

fn idle() -> OperatorInput {
    OperatorInput {
        forward: false,
        backward: false,
        left: false,
        right: false,
        yaw_left: false,
        yaw_right: false,
        climb: false,
        descend: false,
        reset: false,
        toggle_pause: false,
    }
}

#[test]
fn axis_values() {
    assert_eq!(axis(false, false), 0);
    assert_eq!(axis(true, false), 1);
    assert_eq!(axis(false, true), -1);
    assert_eq!(axis(true, true), 0);
}

#[test]
fn idle_input_asks_for_nothing() {
    assert_eq!(
        idle().setpoint_steps(),
        SetpointSteps { pitch: 0, roll: 0, yaw_rate: 0, climb: 0 }
    );
}

#[test]
fn forward_right_yaw_left_climb() {
    let input = OperatorInput { forward: true, right: true, yaw_left: true, climb: true, ..idle() };
    assert_eq!(
        input.setpoint_steps(),
        SetpointSteps { pitch: -1, roll: -1, yaw_rate: 1, climb: 1 }
    );
}

#[test]
fn backward_left_yaw_right_descend() {
    let input =
        OperatorInput { backward: true, left: true, yaw_right: true, descend: true, ..idle() };
    assert_eq!(
        input.setpoint_steps(),
        SetpointSteps { pitch: 1, roll: 1, yaw_rate: -1, climb: -1 }
    );
}

#[test]
fn opposing_commands_cancel() {
    let input = OperatorInput {
        forward: true,
        backward: true,
        left: true,
        right: true,
        yaw_left: true,
        yaw_right: true,
        climb: true,
        descend: true,
        ..idle()
    };
    assert_eq!(
        input.setpoint_steps(),
        SetpointSteps { pitch: 0, roll: 0, yaw_rate: 0, climb: 0 }
    );
}

#[test]
fn latch_takes_first_value_only() {
    let mut latch: SetpointLatch<i32> = SetpointLatch::new();
    assert_eq!(latch.get(), None);
    assert_eq!(latch.latch(2), 2);
    assert_eq!(latch.latch(5), 2);
    assert_eq!(latch.get(), Some(2));
}

#[test]
fn latch_moves_and_resets() {
    let mut latch: SetpointLatch<f32> = SetpointLatch::new();
    latch.latch(2.0);
    latch.set(2.5);
    assert_eq!(latch.latch(0.0), 2.5);
    latch.reset();
    assert_eq!(latch.get(), None);
    assert_eq!(latch.latch(1.0), 1.0);
}
