use vstd::prelude::*;

use crate::rotor::RotationDirection;

verus! {

/// Rotor count of the standard four-rotor ("X") layout.
pub const QUAD_ROTOR_COUNT: usize = 4;

/// Where a rotor of the four-rotor layout sits and how it spins, in a body
/// frame whose forward axis is -z and right-hand axis +x. `right` is positive
/// for a rotor on the +x side, otherwise on the -x side; `rear` is positive on
/// the +z side, otherwise on the -z side.
#[derive(Clone, Copy, Debug, PartialEq, Eq, Structural)]
pub struct QuadSlot {
    pub right: i8,
    pub rear: i8,
    pub direction: RotationDirection,
}

/// Signs with which the pitch, roll and yaw torque demands enter one rotor's
/// thrust proportion.
#[derive(Clone, Copy, Debug, PartialEq, Eq, Structural)]
pub struct MixingSigns {
    pub pitch: i8,
    pub roll: i8,
    pub yaw: i8,
}

/// The slot of rotor `i` in the four-rotor layout: rear right counter-clockwise,
/// rear left clockwise, front right clockwise, front left counter-clockwise.
pub open spec fn spec_quad_slot(i: int) -> QuadSlot {
    if i == 0 {
        QuadSlot { right: 1i8, rear: 1i8, direction: RotationDirection::CounterClockWise }
    } else if i == 1 {
        QuadSlot { right: -1i8, rear: 1i8, direction: RotationDirection::ClockWise }
    } else if i == 2 {
        QuadSlot { right: 1i8, rear: -1i8, direction: RotationDirection::ClockWise }
    } else {
        QuadSlot { right: -1i8, rear: -1i8, direction: RotationDirection::CounterClockWise }
    }
}

/// A rotor's mixing signs follow from its slot: a (nose-up) pitch demand
/// raises the front rotors, a roll demand the right-hand ones, and a yaw
/// demand the rotors whose reaction torque turns the airframe the requested
/// way.
pub open spec fn spec_mixing_of(slot: QuadSlot) -> MixingSigns {
    MixingSigns {
        pitch: if slot.rear > 0 { -1i8 } else { 1i8 },
        roll: if slot.right > 0 { 1i8 } else { -1i8 },
        yaw: slot.direction.spec_torque_sign() as i8,
    }
}

pub open spec fn spec_quad_mixing(i: int) -> MixingSigns {
    spec_mixing_of(spec_quad_slot(i))
}

/// The slot of rotor `rotor` in the four-rotor layout.
pub fn quad_slot(rotor: usize) -> (r: QuadSlot)
    requires
        rotor < QUAD_ROTOR_COUNT,
    ensures
        r == spec_quad_slot(rotor as int),
{
    if rotor == 0 {
        QuadSlot { right: 1, rear: 1, direction: RotationDirection::CounterClockWise }
    } else if rotor == 1 {
        QuadSlot { right: -1, rear: 1, direction: RotationDirection::ClockWise }
    } else if rotor == 2 {
        QuadSlot { right: 1, rear: -1, direction: RotationDirection::ClockWise }
    } else {
        QuadSlot { right: -1, rear: -1, direction: RotationDirection::CounterClockWise }
    }
}

impl QuadSlot {
    /// The mixing signs of a rotor in this slot.
    pub fn mixing(&self) -> (r: MixingSigns)
        ensures
            r == spec_mixing_of(*self),
    {
        let pitch: i8 = if self.rear > 0 { -1 } else { 1 };
        let roll: i8 = if self.right > 0 { 1 } else { -1 };
        MixingSigns { pitch, roll, yaw: self.direction.torque_sign() }
    }
}

/// The mixing signs of rotor `rotor` in the four-rotor layout.
pub fn quad_mixing(rotor: usize) -> (r: MixingSigns)
    requires
        rotor < QUAD_ROTOR_COUNT,
    ensures
        r == spec_quad_mixing(rotor as int),
        r.pitch == 1 || r.pitch == -1,
        r.roll == 1 || r.roll == -1,
        r.yaw == 1 || r.yaw == -1,
{
    quad_slot(rotor).mixing()
}

/// The four-rotor mixing table is balanced and decoupled: each torque demand
/// raises two rotors and lowers the other two by the same amount, so the
/// proportions keep summing to 1.0 (four times the 0.25 baseline) whatever
/// the demand, and the three demand columns are pairwise orthogonal, so no
/// demand leaks into another axis. The rotors are pairwise distinct in their signs.
pub proof fn lemma_quad_mixing_balanced()
    ensures
        spec_quad_mixing(0).pitch + spec_quad_mixing(1).pitch + spec_quad_mixing(2).pitch
            + spec_quad_mixing(3).pitch == 0,
        spec_quad_mixing(0).roll + spec_quad_mixing(1).roll + spec_quad_mixing(2).roll
            + spec_quad_mixing(3).roll == 0,
        spec_quad_mixing(0).yaw + spec_quad_mixing(1).yaw + spec_quad_mixing(2).yaw
            + spec_quad_mixing(3).yaw == 0,
        forall|a: int, b: int|
            0 <= a < 4 && 0 <= b < 4 && a != b ==> spec_quad_mixing(a) != spec_quad_mixing(b),
        spec_quad_mixing(0).pitch * spec_quad_mixing(0).roll + spec_quad_mixing(1).pitch
            * spec_quad_mixing(1).roll + spec_quad_mixing(2).pitch * spec_quad_mixing(2).roll
            + spec_quad_mixing(3).pitch * spec_quad_mixing(3).roll == 0,
        spec_quad_mixing(0).pitch * spec_quad_mixing(0).yaw + spec_quad_mixing(1).pitch
            * spec_quad_mixing(1).yaw + spec_quad_mixing(2).pitch * spec_quad_mixing(2).yaw
            + spec_quad_mixing(3).pitch * spec_quad_mixing(3).yaw == 0,
        spec_quad_mixing(0).roll * spec_quad_mixing(0).yaw + spec_quad_mixing(1).roll
            * spec_quad_mixing(1).yaw + spec_quad_mixing(2).roll * spec_quad_mixing(2).yaw
            + spec_quad_mixing(3).roll * spec_quad_mixing(3).yaw == 0,
{
}

/// In the four-rotor layout, a rotor's yaw sign is the sign of its own
/// reaction torque: reversing the rotor reverses its yaw contribution.
pub proof fn lemma_quad_yaw_follows_spin(i: int)
    requires
        0 <= i < 4,
    ensures
        spec_quad_mixing(i).yaw as int == spec_quad_slot(i).direction.spec_torque_sign(),
        spec_mixing_of(
            QuadSlot { direction: spec_quad_slot(i).direction.spec_reversed(), ..spec_quad_slot(i) },
        ).yaw as int == -spec_quad_mixing(i).yaw,
{
}

} // verus!
