use vstd::prelude::*;

use crate::error::FlightError;

verus! {

/// A multirotor airframe: a non-empty, ordered list of rotors. Control inputs
/// address the rotors by their index in this list.
#[derive(Debug)]
pub struct Multicopter<P> {
    propellers: Vec<P>,
}

impl<P> View for Multicopter<P> {
    type V = Seq<P>;

    closed spec fn view(&self) -> Seq<P> {
        self.propellers@
    }
}

impl<P> Multicopter<P> {
    #[verifier::type_invariant]
    spec fn has_rotors(&self) -> bool {
        self.propellers.len() > 0
    }

    /// Assembles a vehicle from its rotors; an empty list is refused.
    pub fn new(propellers: Vec<P>) -> (r: Result<Self, FlightError>)
        ensures
            propellers@.len() == 0 <==> r is Err,
            r matches Ok(m) ==> m@ == propellers@,
            r matches Err(e) ==> e == FlightError::DegenerateConstruction,
    {
        if propellers.len() == 0 {
            Err(FlightError::DegenerateConstruction)
        } else {
            Ok(Multicopter { propellers })
        }
    }

    /// Number of rotors, never zero.
    pub fn rotor_count(&self) -> (r: usize)
        ensures
            r == self@.len(),
            r > 0,
    {
        proof {
            use_type_invariant(self);
        }
        self.propellers.len()
    }

    /// The rotors, in control-input order.
    pub fn propellers(&self) -> (r: &[P])
        ensures
            r@ == self@,
    {
        self.propellers.as_slice()
    }

    /// The rotor that control input `i` drives.
    pub fn propeller(&self, i: usize) -> (r: &P)
        requires
            i < self@.len(),
        ensures
            *r == self@[i as int],
    {
        &self.propellers[i]
    }

    /// Checks that a control-input vector holds exactly one spin rate per
    /// rotor, as the force and torque computation needs.
    pub fn check_control_inputs<T>(&self, inputs: &[T]) -> (r: Result<(), FlightError>)
        ensures
            r is Ok <==> inputs@.len() == self@.len(),
            r matches Err(e) ==> e == (FlightError::InvalidInputLength {
                expected: self@.len() as usize,
                actual: inputs@.len() as usize,
            }),
    {
        let expected = self.propellers.len();
        let actual = inputs.len();
        if actual != expected {
            Err(FlightError::InvalidInputLength { expected, actual })
        } else {
            Ok(())
        }
    }
}

} // verus!
