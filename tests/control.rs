use multicopter::{motor_proportions, needed_vertical_thrust, BASELINE, TILT_CUTOFF, UNIT};

#[test]
fn zero_demand_gives_flat_baseline() {
    assert_eq!(motor_proportions(0, 0, 0), [BASELINE; 4]);
}

#[test]
fn small_demand_is_mixed_unscaled() {
    // offsets: -p + r + y, -p - r - y, p + r - y, p - r + y
    assert_eq!(motor_proportions(100, 20, 3), [4096 - 77, 4096 - 123, 4096 + 117, 4096 + 83]);
}

#[test]
fn saturation_scales_all_offsets_by_one_factor() {
    // offsets -8192, -8192, 8192, 8192: divisor 8192, so every offset is halved
    let r = motor_proportions(8192, 0, 0);
    assert_eq!(r, [0, 0, 8192, 8192]);
}

#[test]
fn saturation_keeps_every_rotor_non_negative() {
    // offsets 2000, -6000, 6000, -2000: divisor 6000, factor 4096/6000
    let r = motor_proportions(2000, 4000, 0);
    assert_eq!(r, [4096 + 1365, 0, 8192, 4096 - 1365]);
    for (pitch, roll, yaw) in [(9000, -5000, 300), (-20000, 7, 12345), (i32::MIN, i32::MAX, i32::MIN)]
    {
        for p in motor_proportions(pitch, roll, yaw) {
            assert!(p >= 0);
        }
    }
}

#[test]
fn level_thrust_is_demand() {
    assert_eq!(needed_vertical_thrust(1000, UNIT as i16), 1000);
}

#[test]
fn tilted_thrust_is_divided_by_cosine() {
    assert_eq!(needed_vertical_thrust(1000, (UNIT / 2) as i16), 2000);
}

#[test]
fn tilt_cutoff_and_downward_demand_give_zero() {
    assert_eq!(needed_vertical_thrust(1_000_000, TILT_CUTOFF), 0);
    assert_eq!(needed_vertical_thrust(1_000_000, -(UNIT as i16)), 0);
    assert_eq!(needed_vertical_thrust(-5, UNIT as i16), 0);
    assert_eq!(needed_vertical_thrust(1, TILT_CUTOFF + 1), (UNIT as u128) / 164);
}
