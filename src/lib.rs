//! Verified core of a multirotor flight model, in exact integer arithmetic:
//! the net force and torque that the rotors impart on the airframe, the
//! motor mixing, saturation-preserving scaling and tilt compensation of the
//! flight controller, rotor layout and input validation, and the mapping from
//! operator commands to controller set-points.
mod airframe;
mod command;
mod control;
mod dynamics;
mod error;
mod mixing;
mod rotor;

pub use airframe::Multicopter;
pub use command::{axis, OperatorInput, SetpointLatch, SetpointSteps};
pub use control::{
    lemma_saturation_preserving, lemma_tilt_cutoff, lemma_zero_demand_baseline, motor_proportions,
    needed_vertical_thrust, BASELINE, TILT_CUTOFF,
};
pub use dynamics::{
    lemma_force_torque_deterministic, lemma_gyroscopic_isotropic, lemma_gyroscopic_vanishes,
    lemma_no_spin_no_motion, lemma_reaction_flips, lemma_sums_at_rest, lemma_thrust_quadruples,
    InertiaTensor, PropellerInfo, QuadcopterForceTorque, Rotation, Row3, Vector3, Wide3, MAX_ROTORS,
    UNIT,
};
pub use error::FlightError;
pub use mixing::{
    lemma_quad_mixing_balanced, lemma_quad_yaw_follows_spin, quad_mixing, quad_slot, MixingSigns,
    QuadSlot, QUAD_ROTOR_COUNT,
};
pub use rotor::{lemma_reversed_torque_sign, RotationDirection};
