use vstd::prelude::*;

verus! {

/// The sense in which a rotor spins, seen from above along its thrust axis.
#[derive(Clone, Copy, Debug, PartialEq, Eq, Structural)]
pub enum RotationDirection {
    CounterClockWise,
    ClockWise,
}

impl RotationDirection {
    /// Sign of the drag reaction torque that the rotor exerts on the airframe:
    /// the airframe twists opposite to the rotor's spin.
    pub open spec fn spec_torque_sign(self) -> int {
        match self {
            RotationDirection::CounterClockWise => 1,
            RotationDirection::ClockWise => -1,
        }
    }

    pub open spec fn spec_reversed(self) -> RotationDirection {
        match self {
            RotationDirection::CounterClockWise => RotationDirection::ClockWise,
            RotationDirection::ClockWise => RotationDirection::CounterClockWise,
        }
    }

    /// `+1` for a counter-clockwise rotor, `-1` for a clockwise one.
    pub fn torque_sign(&self) -> (r: i8)
        ensures
            r as int == self.spec_torque_sign(),
    {
        match self {
            RotationDirection::CounterClockWise => 1,
            RotationDirection::ClockWise => -1,
        }
    }

    /// The opposite spin direction.
    pub fn reversed(&self) -> (r: RotationDirection)
        ensures
            r == self.spec_reversed(),
    {
        match self {
            RotationDirection::CounterClockWise => RotationDirection::ClockWise,
            RotationDirection::ClockWise => RotationDirection::CounterClockWise,
        }
    }
}

/// Reversing a rotor's spin flips the sign of its reaction torque, all else
/// equal; the sign is always a unit, and reversing twice changes nothing.
pub proof fn lemma_reversed_torque_sign(d: RotationDirection)
    ensures
        d.spec_reversed().spec_torque_sign() == -d.spec_torque_sign(),
        d.spec_torque_sign() == 1 || d.spec_torque_sign() == -1,
        d.spec_reversed() != d,
        d.spec_reversed().spec_reversed() == d,
{
}

} // verus!
