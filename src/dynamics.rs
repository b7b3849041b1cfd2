use vstd::prelude::*;

use crate::airframe::Multicopter;
use crate::error::FlightError;
use crate::rotor::RotationDirection;

verus! {

/// Fixed-point scale of unit quantities: a thrust direction or a rotation
/// matrix entry of `UNIT` stands for 1.
pub const UNIT: i64 = 16384;

/// Most rotors a vehicle can have for its force and torque to fit in 128 bits.
pub const MAX_ROTORS: usize = 65536;

/// A small vector: a rotor position, a thrust direction (scaled by `UNIT`), an
/// angular velocity or a row of a rotation.
#[derive(Clone, Copy, Debug, PartialEq, Eq, Structural)]
pub struct Vector3 {
    pub x: i16,
    pub y: i16,
    pub z: i16,
}

/// A row of an inertia tensor.
#[derive(Clone, Copy, Debug, PartialEq, Eq, Structural)]
pub struct Row3 {
    pub x: i32,
    pub y: i32,
    pub z: i32,
}

/// A force or a torque, exact.
#[derive(Clone, Copy, Debug, PartialEq, Eq, Structural)]
pub struct Wide3 {
    pub x: i128,
    pub y: i128,
    pub z: i128,
}

/// Body-to-world rotation, by rows, each entry scaled by `UNIT`.
#[derive(Clone, Copy, Debug, PartialEq, Eq, Structural)]
pub struct Rotation {
    pub x: Vector3,
    pub y: Vector3,
    pub z: Vector3,
}

/// Body-frame inertia tensor, by rows.
#[derive(Clone, Copy, Debug, PartialEq, Eq, Structural)]
pub struct InertiaTensor {
    pub x: Row3,
    pub y: Row3,
    pub z: Row3,
}

/// Static configuration of one rotor. Quantities are integers in units the
/// caller picks consistently; the thrust direction is scaled by `UNIT`.
#[derive(Clone, Copy, Debug, PartialEq, Eq, Structural)]
pub struct PropellerInfo {
    /// the body frame position of this propeller
    pub position: Vector3,
    pub direction: Vector3,
    pub thrust_constant: u16,
    pub drag_constant: u16,
    pub rotation_direction: RotationDirection,
}

/// Net force and torque on the airframe in the world frame, both scaled by
/// `UNIT * UNIT`.
#[derive(Clone, Copy, Debug, PartialEq, Eq, Structural)]
pub struct QuadcopterForceTorque {
    pub force: Wide3,
    pub torque: Wide3,
}

pub open spec fn v3(v: Vector3) -> (int, int, int) {
    (v.x as int, v.y as int, v.z as int)
}

pub open spec fn row3(v: Row3) -> (int, int, int) {
    (v.x as int, v.y as int, v.z as int)
}

pub open spec fn w3(v: Wide3) -> (int, int, int) {
    (v.x as int, v.y as int, v.z as int)
}

pub open spec fn add3(a: (int, int, int), b: (int, int, int)) -> (int, int, int) {
    (a.0 + b.0, a.1 + b.1, a.2 + b.2)
}

pub open spec fn sub3(a: (int, int, int), b: (int, int, int)) -> (int, int, int) {
    (a.0 - b.0, a.1 - b.1, a.2 - b.2)
}

pub open spec fn scale3(c: int, a: (int, int, int)) -> (int, int, int) {
    (c * a.0, c * a.1, c * a.2)
}

pub open spec fn dot3(a: (int, int, int), b: (int, int, int)) -> int {
    a.0 * b.0 + a.1 * b.1 + a.2 * b.2
}

pub open spec fn cross3(a: (int, int, int), b: (int, int, int)) -> (int, int, int) {
    (a.1 * b.2 - a.2 * b.1, a.2 * b.0 - a.0 * b.2, a.0 * b.1 - a.1 * b.0)
}

pub open spec fn zero3() -> (int, int, int) {
    (0, 0, 0)
}

/// Thrust of one rotor at spin rate `w`: `thrust_constant * w^2` along its
/// direction (so scaled by `UNIT`).
pub open spec fn spec_thrust(p: PropellerInfo, w: int) -> (int, int, int) {
    scale3(p.thrust_constant * (w * w), v3(p.direction))
}

/// Drag reaction torque of one rotor at spin rate `w`, signed by its spin and
/// scaled by `UNIT` like the thrust.
pub open spec fn spec_reaction(p: PropellerInfo, w: int) -> int {
    UNIT * (p.drag_constant * (w * w)) * p.rotation_direction.spec_torque_sign()
}

/// Torque of one rotor: the moment of its thrust about the centre of mass,
/// plus its drag reaction added to every component.
pub open spec fn spec_rotor_torque(p: PropellerInfo, w: int) -> (int, int, int) {
    add3(
        cross3(v3(p.position), spec_thrust(p, w)),
        (spec_reaction(p, w), spec_reaction(p, w), spec_reaction(p, w)),
    )
}

/// Net body-frame thrust of the first `n` rotors.
pub open spec fn spec_thrust_sum(ps: Seq<PropellerInfo>, ws: Seq<i16>, n: int) -> (int, int, int)
    decreases n,
{
    if n <= 0 {
        zero3()
    } else {
        add3(spec_thrust_sum(ps, ws, n - 1), spec_thrust(ps[n - 1], ws[n - 1] as int))
    }
}

/// Net body-frame propeller torque of the first `n` rotors.
pub open spec fn spec_torque_sum(ps: Seq<PropellerInfo>, ws: Seq<i16>, n: int) -> (int, int, int)
    decreases n,
{
    if n <= 0 {
        zero3()
    } else {
        add3(spec_torque_sum(ps, ws, n - 1), spec_rotor_torque(ps[n - 1], ws[n - 1] as int))
    }
}

pub open spec fn spec_rotate(r: Rotation, v: (int, int, int)) -> (int, int, int) {
    (dot3(v3(r.x), v), dot3(v3(r.y), v), dot3(v3(r.z), v))
}

pub open spec fn spec_inertia_apply(i: InertiaTensor, v: (int, int, int)) -> (int, int, int) {
    (dot3(row3(i.x), v), dot3(row3(i.y), v), dot3(row3(i.z), v))
}

/// The gyroscopic coupling term `w x (I w)`.
pub open spec fn spec_gyroscopic(i: InertiaTensor, w: (int, int, int)) -> (int, int, int) {
    cross3(w, spec_inertia_apply(i, w))
}

/// World-frame net force, scaled by `UNIT * UNIT`.
pub open spec fn spec_force(ps: Seq<PropellerInfo>, r: Rotation, ws: Seq<i16>) -> (int, int, int) {
    spec_rotate(r, spec_thrust_sum(ps, ws, ps.len() as int))
}

/// World-frame net torque, scaled by `UNIT * UNIT`: the rotated propeller
/// torque less the gyroscopic term.
pub open spec fn spec_torque(
    ps: Seq<PropellerInfo>,
    r: Rotation,
    w: Vector3,
    ws: Seq<i16>,
    i: InertiaTensor,
) -> (int, int, int) {
    sub3(
        spec_rotate(r, spec_torque_sum(ps, ws, ps.len() as int)),
        scale3(UNIT * UNIT, spec_gyroscopic(i, v3(w))),
    )
}

pub open spec fn bounded3(v: (int, int, int), b: int) -> bool {
    -b <= v.0 <= b && -b <= v.1 <= b && -b <= v.2 <= b
}

proof fn lemma_mul_bound(a: int, b: int, x: int, y: int)
    requires
        -x <= a <= x,
        -y <= b <= y,
    ensures
        -(x * y) <= a * b <= x * y,
{
    assert(-(x * y) <= a * b <= x * y) by (nonlinear_arith)
        requires
            -x <= a <= x,
            -y <= b <= y,
    ;
}

fn thrust(p: &PropellerInfo, w: i16) -> (r: Wide3)
    ensures
        w3(r) == spec_thrust(*p, w as int),
        bounded3(w3(r), 0x2000_0000_0000_0000),
{
    proof {
        lemma_mul_bound(w as int, w as int, 0x8000, 0x8000);
    }
    let ww: i128 = w as i128 * w as i128;
    proof {
        lemma_mul_bound(p.thrust_constant as int, ww as int, 0x10000, 0x4000_0000);
    }
    let m: i128 = p.thrust_constant as i128 * ww;
    proof {
        lemma_mul_bound(m as int, p.direction.x as int, 0x4000_0000_0000, 0x8000);
        lemma_mul_bound(m as int, p.direction.y as int, 0x4000_0000_0000, 0x8000);
        lemma_mul_bound(m as int, p.direction.z as int, 0x4000_0000_0000, 0x8000);
    }
    Wide3 {
        x: m * p.direction.x as i128,
        y: m * p.direction.y as i128,
        z: m * p.direction.z as i128,
    }
}

fn rotor_torque(p: &PropellerInfo, w: i16, f: Wide3) -> (r: Wide3)
    requires
        w3(f) == spec_thrust(*p, w as int),
        bounded3(w3(f), 0x2000_0000_0000_0000),
    ensures
        w3(r) == spec_rotor_torque(*p, w as int),
        bounded3(w3(r), 0x4000_0000_0000_0000_0000),
{
    proof {
        lemma_mul_bound(w as int, w as int, 0x8000, 0x8000);
    }
    let ww: i128 = w as i128 * w as i128;
    proof {
        lemma_mul_bound(p.drag_constant as int, ww as int, 0x10000, 0x4000_0000);
    }
    let drag: i128 = p.drag_constant as i128 * ww;
    let sign = p.rotation_direction.torque_sign();
    proof {
        lemma_mul_bound(UNIT as int, drag as int, 0x4000, 0x4000_0000_0000);
        lemma_mul_bound(UNIT as int * drag as int, sign as int, 0x1000_0000_0000_0000, 1);
    }
    let reaction: i128 = UNIT as i128 * drag * sign as i128;
    let px = p.position.x as i128;
    let py = p.position.y as i128;
    let pz = p.position.z as i128;
    proof {
        let b = 0x2000_0000_0000_0000int;
        lemma_mul_bound(px as int, f.y as int, 0x8000, b);
        lemma_mul_bound(px as int, f.z as int, 0x8000, b);
        lemma_mul_bound(py as int, f.x as int, 0x8000, b);
        lemma_mul_bound(py as int, f.z as int, 0x8000, b);
        lemma_mul_bound(pz as int, f.x as int, 0x8000, b);
        lemma_mul_bound(pz as int, f.y as int, 0x8000, b);
        assert(UNIT as int * (p.drag_constant * (w * w)) == UNIT as int * drag as int);
    }
    Wide3 {
        x: py * f.z - pz * f.y + reaction,
        y: pz * f.x - px * f.z + reaction,
        z: px * f.y - py * f.x + reaction,
    }
}

fn rotate(r: &Rotation, v: Wide3) -> (o: Wide3)
    requires
        bounded3(w3(v), 0x4000_0000_0000_0000_0000_0000),
    ensures
        w3(o) == spec_rotate(*r, w3(v)),
        bounded3(w3(o), 0x8000_0000_0000_0000_0000_0000_0000),
{
    proof {
        let b = 0x4000_0000_0000_0000_0000_0000int;
        lemma_mul_bound(r.x.x as int, v.x as int, 0x8000, b);
        lemma_mul_bound(r.x.y as int, v.y as int, 0x8000, b);
        lemma_mul_bound(r.x.z as int, v.z as int, 0x8000, b);
        lemma_mul_bound(r.y.x as int, v.x as int, 0x8000, b);
        lemma_mul_bound(r.y.y as int, v.y as int, 0x8000, b);
        lemma_mul_bound(r.y.z as int, v.z as int, 0x8000, b);
        lemma_mul_bound(r.z.x as int, v.x as int, 0x8000, b);
        lemma_mul_bound(r.z.y as int, v.y as int, 0x8000, b);
        lemma_mul_bound(r.z.z as int, v.z as int, 0x8000, b);
    }
    Wide3 {
        x: r.x.x as i128 * v.x + r.x.y as i128 * v.y + r.x.z as i128 * v.z,
        y: r.y.x as i128 * v.x + r.y.y as i128 * v.y + r.y.z as i128 * v.z,
        z: r.z.x as i128 * v.x + r.z.y as i128 * v.y + r.z.z as i128 * v.z,
    }
}

fn inertia_row(row: &Row3, w: &Vector3) -> (r: i128)
    ensures
        r as int == dot3(row3(*row), v3(*w)),
        -0x1_0000_0000_0000 <= r <= 0x1_0000_0000_0000,
{
    proof {
        lemma_mul_bound(row.x as int, w.x as int, 0x8000_0000, 0x8000);
        lemma_mul_bound(row.y as int, w.y as int, 0x8000_0000, 0x8000);
        lemma_mul_bound(row.z as int, w.z as int, 0x8000_0000, 0x8000);
    }
    row.x as i128 * w.x as i128 + row.y as i128 * w.y as i128 + row.z as i128 * w.z as i128
}

/// The gyroscopic term `w x (I w)`, exact.
fn gyroscopic(i: &InertiaTensor, w: &Vector3) -> (r: Wide3)
    ensures
        w3(r) == spec_gyroscopic(*i, v3(*w)),
        bounded3(w3(r), 0x2_0000_0000_0000_0000),
{
    let a = inertia_row(&i.x, w);
    let b = inertia_row(&i.y, w);
    let c = inertia_row(&i.z, w);
    let wx = w.x as i128;
    let wy = w.y as i128;
    let wz = w.z as i128;
    proof {
        let m = 0x1_0000_0000_0000int;
        lemma_mul_bound(wy as int, c as int, 0x8000, m);
        lemma_mul_bound(wz as int, b as int, 0x8000, m);
        lemma_mul_bound(wz as int, a as int, 0x8000, m);
        lemma_mul_bound(wx as int, c as int, 0x8000, m);
        lemma_mul_bound(wx as int, b as int, 0x8000, m);
        lemma_mul_bound(wy as int, a as int, 0x8000, m);
    }
    Wide3 { x: wy * c - wz * b, y: wz * a - wx * c, z: wx * b - wy * a }
}

impl Multicopter<PropellerInfo> {
    /// Net world-frame force and torque of the vehicle for one rotor spin
    /// rate per rotor: the rotors' thrust and torque summed in the body
    /// frame, rotated into the world frame, with the gyroscopic term `w x (I w)`
    /// subtracted from the torque. Both results are exact and scaled by
    /// `UNIT * UNIT`. Fails with `InvalidInputLength` when the inputs do not
    /// match the rotors one for one.
    pub fn force_torque(
        &self,
        orientation: &Rotation,
        angular_velocity: &Vector3,
        control_inputs: &Vec<i16>,
        inertia: &InertiaTensor,
    ) -> (r: Result<QuadcopterForceTorque, FlightError>)
        requires
            self@.len() <= MAX_ROTORS,
        ensures
            r is Ok <==> control_inputs@.len() == self@.len(),
            r matches Err(e) ==> e == (FlightError::InvalidInputLength {
                expected: self@.len() as usize,
                actual: control_inputs@.len() as usize,
            }),
            r matches Ok(ft) ==> w3(ft.force) == spec_force(self@, *orientation, control_inputs@)
                && w3(ft.torque) == spec_torque(
                self@,
                *orientation,
                *angular_velocity,
                control_inputs@,
                *inertia,
            ),
    {
        match self.check_control_inputs(control_inputs.as_slice()) {
            Err(e) => {
                return Err(e);
            },
            Ok(()) => {},
        }
        let ps = self.propellers();
        let n = ps.len();
        let mut thrust_sum = Wide3 { x: 0, y: 0, z: 0 };
        let mut torque_sum = Wide3 { x: 0, y: 0, z: 0 };
        let mut i: usize = 0;
        while i < n
            invariant
                n == ps@.len(),
                ps@ == self@,
                control_inputs@.len() == n,
                n <= MAX_ROTORS,
                i <= n,
                w3(thrust_sum) == spec_thrust_sum(ps@, control_inputs@, i as int),
                w3(torque_sum) == spec_torque_sum(ps@, control_inputs@, i as int),
                bounded3(w3(thrust_sum), i * 0x2000_0000_0000_0000),
                bounded3(w3(torque_sum), i * 0x4000_0000_0000_0000_0000),
            decreases n - i,
        {
            let w = control_inputs[i];
            let f = thrust(&ps[i], w);
            let t = rotor_torque(&ps[i], w, f);
            thrust_sum = Wide3 { x: thrust_sum.x + f.x, y: thrust_sum.y + f.y, z: thrust_sum.z + f.z };
            torque_sum = Wide3 { x: torque_sum.x + t.x, y: torque_sum.y + t.y, z: torque_sum.z + t.z };
            i = i + 1;
        }
        let force = rotate(orientation, thrust_sum);
        let turned = rotate(orientation, torque_sum);
        let g = gyroscopic(inertia, angular_velocity);
        let unit = UNIT as i128;
        assert(unit * unit == 0x1000_0000) by (nonlinear_arith)
            requires
                unit == 0x4000,
        ;
        let s: i128 = unit * unit;
        proof {
            lemma_mul_bound(s as int, g.x as int, 0x1000_0000, 0x2_0000_0000_0000_0000);
            lemma_mul_bound(s as int, g.y as int, 0x1000_0000, 0x2_0000_0000_0000_0000);
            lemma_mul_bound(s as int, g.z as int, 0x1000_0000, 0x2_0000_0000_0000_0000);
        }
        let torque = Wide3 { x: turned.x - s * g.x, y: turned.y - s * g.y, z: turned.z - s * g.z };
        Ok(QuadcopterForceTorque { force, torque })
    }
}

/// With every rotor at rest, the rotors' net thrust and torque are zero.
pub proof fn lemma_sums_at_rest(ps: Seq<PropellerInfo>, ws: Seq<i16>, n: int)
    requires
        0 <= n <= ps.len(),
        n <= ws.len(),
        forall|j: int| 0 <= j < n ==> ws[j] == 0,
    ensures
        spec_thrust_sum(ps, ws, n) == zero3(),
        spec_torque_sum(ps, ws, n) == zero3(),
    decreases n,
{
    if n > 0 {
        lemma_sums_at_rest(ps, ws, n - 1);
        let p = ps[n - 1];
        let k = p.thrust_constant as int;
        let d = UNIT * (p.drag_constant * (0int * 0int));
        assert(k * (0int * 0int) == 0);
        assert(scale3(0, v3(p.direction)) == zero3());
        assert(d == 0);
        assert(d * p.rotation_direction.spec_torque_sign() == 0);
        assert(spec_thrust(p, 0) == zero3());
        assert(spec_rotor_torque(p, 0) == zero3());
    }
}

/// A vehicle whose rotors are all commanded to zero spin and which does not
/// rotate feels no net force and no net torque, whatever its orientation and
/// inertia.
pub proof fn lemma_no_spin_no_motion(
    ps: Seq<PropellerInfo>,
    r: Rotation,
    w: Vector3,
    ws: Seq<i16>,
    i: InertiaTensor,
)
    requires
        ws.len() == ps.len(),
        forall|j: int| 0 <= j < ws.len() ==> ws[j] == 0,
        w == (Vector3 { x: 0, y: 0, z: 0 }),
    ensures
        spec_force(ps, r, ws) == zero3(),
        spec_torque(ps, r, w, ws, i) == zero3(),
{
    lemma_sums_at_rest(ps, ws, ps.len() as int);
    lemma_gyroscopic_vanishes(i, v3(w));
}

/// Doubling a rotor's spin rate quadruples its thrust.
pub proof fn lemma_thrust_quadruples(p: PropellerInfo, w: int)
    ensures
        spec_thrust(p, 2 * w) == scale3(4, spec_thrust(p, w)),
{
    let k = p.thrust_constant as int;
    assert(k * ((2 * w) * (2 * w)) == 4 * (k * (w * w))) by (nonlinear_arith);
    let m = k * (w * w);
    assert((4 * m) * p.direction.x == 4 * (m * p.direction.x)) by (nonlinear_arith);
    assert((4 * m) * p.direction.y == 4 * (m * p.direction.y)) by (nonlinear_arith);
    assert((4 * m) * p.direction.z == 4 * (m * p.direction.z)) by (nonlinear_arith);
}

/// Reversing a rotor's spin, all else equal, flips the sign of its drag
/// reaction torque.
pub proof fn lemma_reaction_flips(p: PropellerInfo, w: int)
    ensures
        spec_reaction(
            PropellerInfo { rotation_direction: p.rotation_direction.spec_reversed(), ..p },
            w,
        ) == -spec_reaction(p, w),
{
    let m = UNIT * (p.drag_constant * (w * w));
    assert(m * (-p.rotation_direction.spec_torque_sign()) == -(m
        * p.rotation_direction.spec_torque_sign())) by (nonlinear_arith);
}

/// The gyroscopic term vanishes when the vehicle does not rotate.
pub proof fn lemma_gyroscopic_vanishes(i: InertiaTensor, w: (int, int, int))
    requires
        w == zero3(),
    ensures
        spec_gyroscopic(i, w) == zero3(),
{
}

/// The gyroscopic term vanishes for an isotropic inertia tensor (a multiple
/// of the identity), whatever the angular velocity.
pub proof fn lemma_gyroscopic_isotropic(i: InertiaTensor, w: (int, int, int))
    requires
        i.x == (Row3 { x: i.x.x, y: 0, z: 0 }),
        i.y == (Row3 { x: 0, y: i.x.x, z: 0 }),
        i.z == (Row3 { x: 0, y: 0, z: i.x.x }),
    ensures
        spec_gyroscopic(i, w) == zero3(),
{
    let c = i.x.x as int;
    assert(spec_inertia_apply(i, w) == scale3(c, w));
    assert(w.1 * (c * w.2) - w.2 * (c * w.1) == 0) by (nonlinear_arith);
    assert(w.2 * (c * w.0) - w.0 * (c * w.2) == 0) by (nonlinear_arith);
    assert(w.0 * (c * w.1) - w.1 * (c * w.0) == 0) by (nonlinear_arith);
}

/// The force and torque are a function of the inputs alone: two results that
/// meet the contract of `force_torque` for the same vehicle and inputs are
/// identical.
pub proof fn lemma_force_torque_deterministic(
    ps: Seq<PropellerInfo>,
    r: Rotation,
    w: Vector3,
    ws: Seq<i16>,
    i: InertiaTensor,
    a: QuadcopterForceTorque,
    b: QuadcopterForceTorque,
)
    requires
        w3(a.force) == spec_force(ps, r, ws),
        w3(a.torque) == spec_torque(ps, r, w, ws, i),
        w3(b.force) == spec_force(ps, r, ws),
        w3(b.torque) == spec_torque(ps, r, w, ws, i),
    ensures
        a == b,
{
}

} // verus!
