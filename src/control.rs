use vstd::arithmetic::div_mod::{lemma_div_by_multiple, lemma_div_is_ordered, lemma_div_pos_is_pos};
use vstd::prelude::*;

use crate::dynamics::UNIT;
use crate::mixing::{quad_mixing, spec_quad_mixing};

verus! {

/// Each rotor's share of the total thrust at zero torque demand, in units of
/// which `UNIT` is the whole thrust: a quarter.
pub const BASELINE: i64 = 4096;

/// Cosine of tilt (scaled by `UNIT`) at or below which the vehicle is
/// treated as unable to produce lift: about 0.01.
pub const TILT_CUTOFF: i16 = 163;

/// Thrust-proportion offset of rotor `i` of the four-rotor layout for the
/// given pitch, roll and yaw torque demands (in the units of `BASELINE`).
pub open spec fn spec_offset(i: int, pitch: int, roll: int, yaw: int) -> int {
    spec_quad_mixing(i).pitch * pitch + spec_quad_mixing(i).roll * roll + spec_quad_mixing(i).yaw
        * yaw
}

pub open spec fn max2(a: int, b: int) -> int {
    if a >= b {
        a
    } else {
        b
    }
}

/// The shared divisor of the saturation-preserving scaling: every offset is
/// scaled by `BASELINE / divisor`. It is `BASELINE` (no scaling) unless some
/// offset lies below `-BASELINE`, and then the magnitude of the lowest one.
pub open spec fn spec_divisor(pitch: int, roll: int, yaw: int) -> int {
    max2(
        max2(BASELINE as int, -spec_offset(0, pitch, roll, yaw)),
        max2(
            max2(-spec_offset(1, pitch, roll, yaw), -spec_offset(2, pitch, roll, yaw)),
            -spec_offset(3, pitch, roll, yaw),
        ),
    )
}

/// Division rounding toward zero.
pub open spec fn spec_trunc_div(a: int, m: int) -> int {
    if a >= 0 {
        a / m
    } else {
        -((-a) / m)
    }
}

/// Thrust proportion of rotor `i` after saturation-preserving scaling.
pub open spec fn spec_proportion(i: int, pitch: int, roll: int, yaw: int) -> int {
    BASELINE + spec_trunc_div(
        spec_offset(i, pitch, roll, yaw) * BASELINE,
        spec_divisor(pitch, roll, yaw),
    )
}

/// Total thrust needed for a desired vertical thrust at a tilt whose cosine
/// is `coeff` (scaled by `UNIT`); zero when the vehicle cannot usefully lift
/// or the demand is downward.
pub open spec fn spec_needed_thrust(desired: int, coeff: int) -> int {
    if coeff <= TILT_CUTOFF || desired < 0 {
        0
    } else {
        desired * UNIT / coeff
    }
}

fn offset(rotor: usize, pitch: i32, roll: i32, yaw: i32) -> (r: i64)
    requires
        rotor < 4,
    ensures
        r == spec_offset(rotor as int, pitch as int, roll as int, yaw as int),
        -0x2_0000_0000 <= r <= 0x2_0000_0000,
{
    let s = quad_mixing(rotor);
    let a: i64 = if s.pitch > 0 { pitch as i64 } else { -(pitch as i64) };
    let b: i64 = if s.roll > 0 { roll as i64 } else { -(roll as i64) };
    let c: i64 = if s.yaw > 0 { yaw as i64 } else { -(yaw as i64) };
    proof {
        if s.pitch == 1 {
            assert(a == 1 * pitch);
        } else {
            assert(a == (-1) * pitch);
        }
        if s.roll == 1 {
            assert(b == 1 * roll);
        } else {
            assert(b == (-1) * roll);
        }
        if s.yaw == 1 {
            assert(c == 1 * yaw);
        } else {
            assert(c == (-1) * yaw);
        }
    }
    a + b + c
}

fn scaled(o: i64, m: i64) -> (r: i64)
    requires
        BASELINE <= m <= 0x2_0000_0000,
        -m <= o <= 0x2_0000_0000,
    ensures
        r == spec_trunc_div(o * BASELINE, m as int),
        r >= -BASELINE,
        m == BASELINE ==> r == o,
{
    if o >= 0 {
        let q = (o as u64 * BASELINE as u64) / m as u64;
        proof {
            lemma_div_pos_is_pos(o * BASELINE, m as int);
            lemma_div_is_ordered_by_den(o * BASELINE, BASELINE as int, m as int);
            lemma_div_by_multiple(o as int, BASELINE as int);
        }
        q as i64
    } else {
        let q = ((-o) as u64 * BASELINE as u64) / m as u64;
        proof {
            lemma_div_is_ordered((-o) * BASELINE, m * BASELINE, m as int);
            lemma_div_by_multiple(BASELINE as int, m as int);
            assert(m * BASELINE == BASELINE * m);
            lemma_div_by_multiple(-o, BASELINE as int);
        }
        -(q as i64)
    }
}

proof fn lemma_div_is_ordered_by_den(x: int, y: int, z: int)
    requires
        0 <= x,
        1 <= y <= z,
    ensures
        x / z <= x / y,
{
    vstd::arithmetic::div_mod::lemma_div_is_ordered_by_denominator(x, y, z);
}

/// Thrust proportions of the four rotors for the given pitch, roll and yaw
/// torque demands (in the units of `BASELINE`): each rotor's mixed offset,
/// scaled by the one shared factor `BASELINE / divisor` that keeps every
/// rotor's thrust non-negative, added to the `BASELINE` share.
pub fn motor_proportions(pitch: i32, roll: i32, yaw: i32) -> (r: [i64; 4])
    ensures
        forall|i: int|
            0 <= i < 4 ==> r@[i] == spec_proportion(i, pitch as int, roll as int, yaw as int),
        forall|i: int| 0 <= i < 4 ==> r@[i] >= 0,
        spec_divisor(pitch as int, roll as int, yaw as int) == BASELINE ==> forall|i: int|
            0 <= i < 4 ==> r@[i] == BASELINE + spec_offset(i, pitch as int, roll as int, yaw as int),
{
    let o0 = offset(0, pitch, roll, yaw);
    let o1 = offset(1, pitch, roll, yaw);
    let o2 = offset(2, pitch, roll, yaw);
    let o3 = offset(3, pitch, roll, yaw);
    let mut m: i64 = BASELINE;
    if -o0 > m {
        m = -o0;
    }
    if -o1 > m {
        m = -o1;
    }
    if -o2 > m {
        m = -o2;
    }
    if -o3 > m {
        m = -o3;
    }
    assert(m == spec_divisor(pitch as int, roll as int, yaw as int));
    let p0 = BASELINE + scaled(o0, m);
    let p1 = BASELINE + scaled(o1, m);
    let p2 = BASELINE + scaled(o2, m);
    let p3 = BASELINE + scaled(o3, m);
    let r = [p0, p1, p2, p3];
    assert forall|i: int| 0 <= i < 4 implies r@[i] == spec_proportion(
        i,
        pitch as int,
        roll as int,
        yaw as int,
    ) && r@[i] >= 0 && (m == BASELINE ==> r@[i] == BASELINE + spec_offset(
        i,
        pitch as int,
        roll as int,
        yaw as int,
    )) by {
        if i == 0 {
        } else if i == 1 {
        } else if i == 2 {
        } else {
        }
    }
    r
}

/// Total thrust to command for a desired vertical thrust `desired` when the
/// cosine of the tilt between the body's up axis and the world's is `coeff`
/// (scaled by `UNIT`): `desired / cos`, or zero at or below the tilt cutoff
/// or for a downward demand.
pub fn needed_vertical_thrust(desired: i64, coeff: i16) -> (r: u128)
    ensures
        r as int == spec_needed_thrust(desired as int, coeff as int),
{
    if coeff <= TILT_CUTOFF || desired < 0 {
        0
    } else {
        let d = desired as u128;
        assert(d * 16384 <= 0x8000_0000_0000_0000 * 16384) by (nonlinear_arith)
            requires
                d <= 0x8000_0000_0000_0000,
        ;
        (d * UNIT as u128) / coeff as u128
    }
}

/// With no pitch, roll or yaw torque demand, every rotor takes exactly the
/// `BASELINE` quarter of the thrust.
pub proof fn lemma_zero_demand_baseline(i: int)
    requires
        0 <= i < 4,
    ensures
        spec_proportion(i, 0, 0, 0) == BASELINE,
{
    assert(spec_offset(0, 0, 0, 0) == 0);
    assert(spec_offset(1, 0, 0, 0) == 0);
    assert(spec_offset(2, 0, 0, 0) == 0);
    assert(spec_offset(3, 0, 0, 0) == 0);
    assert(spec_offset(i, 0, 0, 0) == 0);
    assert(spec_divisor(0, 0, 0) == BASELINE);
}

/// Saturation-preserving scaling: every rotor's offset is scaled by one
/// common factor `BASELINE / divisor` (no scaling unless some offset lies
/// below `-BASELINE`), so no rotor's thrust proportion is negative, and the
/// rotor with the lowest offset, when it saturates, is brought exactly to
/// zero.
pub proof fn lemma_saturation_preserving(pitch: i32, roll: i32, yaw: i32, i: int)
    requires
        0 <= i < 4,
    ensures
        spec_divisor(pitch as int, roll as int, yaw as int) >= BASELINE,
        spec_proportion(i, pitch as int, roll as int, yaw as int) == BASELINE + spec_trunc_div(
            spec_offset(i, pitch as int, roll as int, yaw as int) * BASELINE,
            spec_divisor(pitch as int, roll as int, yaw as int),
        ),
        spec_proportion(i, pitch as int, roll as int, yaw as int) >= 0,
        spec_offset(i, pitch as int, roll as int, yaw as int) >= -BASELINE
            && spec_divisor(pitch as int, roll as int, yaw as int) == BASELINE
            ==> spec_proportion(i, pitch as int, roll as int, yaw as int) == BASELINE
            + spec_offset(i, pitch as int, roll as int, yaw as int),
        -spec_offset(i, pitch as int, roll as int, yaw as int) == spec_divisor(
            pitch as int,
            roll as int,
            yaw as int,
        ) ==> spec_proportion(i, pitch as int, roll as int, yaw as int) == 0,
{
    let o = spec_offset(i, pitch as int, roll as int, yaw as int);
    let m = spec_divisor(pitch as int, roll as int, yaw as int);
    assert(-o <= m);
    if o >= 0 {
        lemma_div_pos_is_pos(o * BASELINE, m);
        if m == BASELINE {
            lemma_div_by_multiple(o, BASELINE as int);
        }
    } else {
        lemma_div_is_ordered((-o) * BASELINE, m * BASELINE, m);
        lemma_div_by_multiple(BASELINE as int, m);
        assert(m * BASELINE == BASELINE * m);
        if m == BASELINE {
            lemma_div_by_multiple(-o, BASELINE as int);
        }
    }
}

/// Tilt compensation: at or below the tilt cutoff, or for a downward demand,
/// the needed thrust is exactly zero whatever the demand's size.
pub proof fn lemma_tilt_cutoff(desired: int, coeff: int)
    requires
        coeff <= TILT_CUTOFF || desired < 0,
    ensures
        spec_needed_thrust(desired, coeff) == 0,
{
}

} // verus!
