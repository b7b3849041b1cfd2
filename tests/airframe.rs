use multicopter::{FlightError, Multicopter, RotationDirection};

#[test]
fn empty_rotor_list_is_degenerate() {
    let r: Result<Multicopter<RotationDirection>, FlightError> = Multicopter::new(Vec::new());
    assert!(matches!(r, Err(FlightError::DegenerateConstruction)));
}

#[test]
fn four_rotors_build_a_vehicle() {
    let rotors = vec![
        RotationDirection::CounterClockWise,
        RotationDirection::ClockWise,
        RotationDirection::ClockWise,
        RotationDirection::CounterClockWise,
    ];
    let m = Multicopter::new(rotors.clone()).unwrap();
    assert_eq!(m.rotor_count(), 4);
    assert_eq!(m.propellers(), rotors.as_slice());
    assert_eq!(*m.propeller(1), RotationDirection::ClockWise);
}

#[test]
fn single_rotor_is_enough() {
    let m = Multicopter::new(vec![7u32]).unwrap();
    assert_eq!(m.rotor_count(), 1);
    assert_eq!(*m.propeller(0), 7);
}

#[test]
fn matching_input_length_is_accepted() {
    let m = Multicopter::new(vec![0u8; 4]).unwrap();
    assert_eq!(m.check_control_inputs(&[1.0f32, 2.0, 3.0, 4.0]), Ok(()));
}

#[test]
fn short_input_is_rejected() {
    let m = Multicopter::new(vec![0u8; 4]).unwrap();
    assert_eq!(
        m.check_control_inputs(&[1.0f32, 2.0, 3.0]),
        Err(FlightError::InvalidInputLength { expected: 4, actual: 3 })
    );
}

#[test]
fn long_input_is_rejected() {
    let m = Multicopter::new(vec![0u8; 2]).unwrap();
    assert_eq!(
        m.check_control_inputs(&[0.0f32; 5]),
        Err(FlightError::InvalidInputLength { expected: 2, actual: 5 })
    );
}

#[test]
fn empty_input_is_rejected() {
    let m = Multicopter::new(vec![0u8]).unwrap();
    let inputs: [f32; 0] = [];
    assert_eq!(
        m.check_control_inputs(&inputs),
        Err(FlightError::InvalidInputLength { expected: 1, actual: 0 })
    );
}
