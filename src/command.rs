use vstd::prelude::*;

verus! {

/// A snapshot of the operator's held commands for one tick.
#[derive(Clone, Copy, Debug, PartialEq, Eq, Structural)]
pub struct OperatorInput {
    pub forward: bool,
    pub backward: bool,
    pub left: bool,
    pub right: bool,
    pub yaw_left: bool,
    pub yaw_right: bool,
    pub climb: bool,
    pub descend: bool,
    pub reset: bool,
    pub toggle_pause: bool,
}

/// Direction of each set-point for one tick, each `-1`, `0` or `+1`: the
/// bank-angle steps for pitch and roll, the yaw-rate step, and the direction in
/// which the desired altitude moves.
#[derive(Clone, Copy, Debug, PartialEq, Eq, Structural)]
pub struct SetpointSteps {
    pub pitch: i8,
    pub roll: i8,
    pub yaw_rate: i8,
    pub climb: i8,
}

/// One axis driven by a pair of opposing commands: holding both cancels out.
pub open spec fn spec_axis(positive: bool, negative: bool) -> int {
    (if positive { 1int } else { 0int }) - (if negative { 1int } else { 0int })
}

/// The value of one axis driven by `positive` and `negative`.
pub fn axis(positive: bool, negative: bool) -> (r: i8)
    ensures
        r as int == spec_axis(positive, negative),
        -1 <= r <= 1,
{
    let up: i8 = if positive { 1 } else { 0 };
    let down: i8 = if negative { 1 } else { 0 };
    up - down
}

impl OperatorInput {
    /// The set-point directions this snapshot asks for. Moving forward pitches
    /// the nose down (a negative pitch step), banking right is a negative roll
    /// step, yawing left a positive yaw-rate step.
    pub fn setpoint_steps(&self) -> (r: SetpointSteps)
        ensures
            r.pitch as int == spec_axis(self.backward, self.forward),
            r.roll as int == spec_axis(self.left, self.right),
            r.yaw_rate as int == spec_axis(self.yaw_left, self.yaw_right),
            r.climb as int == spec_axis(self.climb, self.descend),
    {
        SetpointSteps {
            pitch: axis(self.backward, self.forward),
            roll: axis(self.left, self.right),
            yaw_rate: axis(self.yaw_left, self.yaw_right),
            climb: axis(self.climb, self.descend),
        }
    }
}

/// A set-point that is latched lazily to the vehicle's current value on the
/// first control tick, may then be moved by the operator, and is cleared only
/// by an explicit reset.
#[derive(Clone, Copy, Debug)]
pub struct SetpointLatch<T> {
    value: Option<T>,
}

impl<T> View for SetpointLatch<T> {
    type V = Option<T>;

    closed spec fn view(&self) -> Option<T> {
        self.value
    }
}

impl<T: Copy> SetpointLatch<T> {
    /// A latch that holds nothing yet.
    pub fn new() -> (r: Self)
        ensures
            r@ is None,
    {
        SetpointLatch { value: None }
    }

    /// The latched value, if any.
    pub fn get(&self) -> (r: Option<T>)
        ensures
            r == self@,
    {
        self.value
    }

    /// Latches `current` if nothing is latched yet, and returns the latched
    /// value; an existing value is kept.
    pub fn latch(&mut self, current: T) -> (r: T)
        ensures
            old(self)@ is None ==> r == current,
            old(self)@ matches Some(v) ==> r == v,
            final(self)@ == Some(r),
    {
        match self.value {
            Some(v) => v,
            None => {
                self.value = Some(current);
                current
            },
        }
    }

    /// Moves the latched value to `value`.
    pub fn set(&mut self, value: T)
        ensures
            final(self)@ == Some(value),
    {
        self.value = Some(value);
    }

    /// Clears the latch, so that the next tick latches anew.
    pub fn reset(&mut self)
        ensures
            final(self)@ is None,
    {
        self.value = None;
    }
}

} // verus!
