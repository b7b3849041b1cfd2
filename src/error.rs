use vstd::prelude::*;

verus! {

/// What can go wrong when a vehicle is built or stepped.
#[derive(Clone, Copy, Debug, PartialEq, Eq, Structural)]
pub enum FlightError {
    /// The control-input vector does not have one entry per rotor; the tick's
    /// force and torque for that vehicle are skipped.
    InvalidInputLength { expected: usize, actual: usize },
    /// A vehicle was requested without any rotor.
    DegenerateConstruction,
}

} // verus!
