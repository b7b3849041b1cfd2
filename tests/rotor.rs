use multicopter::{quad_mixing, quad_slot, MixingSigns, QuadSlot, RotationDirection, QUAD_ROTOR_COUNT};

#[test]
fn torque_sign_of_each_direction() {
    assert_eq!(RotationDirection::CounterClockWise.torque_sign(), 1);
    assert_eq!(RotationDirection::ClockWise.torque_sign(), -1);
}

#[test]
fn reversing_flips_torque_sign() {
    for d in [RotationDirection::CounterClockWise, RotationDirection::ClockWise] {
        assert_ne!(d.reversed(), d);
        assert_eq!(d.reversed().torque_sign(), -d.torque_sign());
        assert_eq!(d.reversed().reversed(), d);
    }
}

#[test]
fn quad_layout_slots() {
    assert_eq!(
        quad_slot(0),
        QuadSlot { right: 1, rear: 1, direction: RotationDirection::CounterClockWise }
    );
    assert_eq!(
        quad_slot(1),
        QuadSlot { right: -1, rear: 1, direction: RotationDirection::ClockWise }
    );
    assert_eq!(
        quad_slot(2),
        QuadSlot { right: 1, rear: -1, direction: RotationDirection::ClockWise }
    );
    assert_eq!(
        quad_slot(3),
        QuadSlot { right: -1, rear: -1, direction: RotationDirection::CounterClockWise }
    );
}

#[test]
fn quad_mixing_table() {
    assert_eq!(quad_mixing(0), MixingSigns { pitch: -1, roll: 1, yaw: 1 });
    assert_eq!(quad_mixing(1), MixingSigns { pitch: -1, roll: -1, yaw: -1 });
    assert_eq!(quad_mixing(2), MixingSigns { pitch: 1, roll: 1, yaw: -1 });
    assert_eq!(quad_mixing(3), MixingSigns { pitch: 1, roll: -1, yaw: 1 });
}

#[test]
fn quad_mixing_columns_cancel() {
    let rows: Vec<MixingSigns> = (0..QUAD_ROTOR_COUNT).map(quad_mixing).collect();
    assert_eq!(rows.iter().map(|s| s.pitch as i32).sum::<i32>(), 0);
    assert_eq!(rows.iter().map(|s| s.roll as i32).sum::<i32>(), 0);
    assert_eq!(rows.iter().map(|s| s.yaw as i32).sum::<i32>(), 0);
    assert_eq!(rows.iter().map(|s| (s.pitch * s.roll) as i32).sum::<i32>(), 0);
}

#[test]
fn zero_demand_leaves_flat_baseline() {
    // with no torque demand every rotor takes a quarter of the thrust
    let (pitch, roll, yaw) = (0.0f32, 0.0f32, 0.0f32);
    for i in 0..QUAD_ROTOR_COUNT {
        let s = quad_mixing(i);
        let p = 0.25 + s.pitch as f32 * pitch + s.roll as f32 * roll + s.yaw as f32 * yaw;
        assert_eq!(p, 0.25);
    }
}

#[test]
fn slot_mixing_with_reversed_spin() {
    let slot = QuadSlot { right: 1, rear: 1, direction: RotationDirection::ClockWise };
    assert_eq!(slot.mixing(), MixingSigns { pitch: -1, roll: 1, yaw: -1 });
}

#[test]
fn slot_mixing_goes_by_side_only() {
    let slot = QuadSlot { right: -3, rear: 2, direction: RotationDirection::CounterClockWise };
    assert_eq!(slot.mixing(), MixingSigns { pitch: -1, roll: -1, yaw: 1 });
    let slot = QuadSlot { right: 0, rear: 0, direction: RotationDirection::ClockWise };
    assert_eq!(slot.mixing(), MixingSigns { pitch: 1, roll: -1, yaw: -1 });
}
