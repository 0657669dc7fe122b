//! Velocity loop: what the inner control task decides on each tick and on
//! each change of the target speed. The controller arithmetic itself is done
//! by the caller, on the values handed out here.

use crate::encoder::clamp64;
use vstd::prelude::*;

verus! {

/// What the velocity loop is, as plain values.
pub struct SpeedState {
    /// Whether a non-zero speed is being held.
    pub active: bool,
    /// The position at the last tick that was acted on.
    pub last_position: i64,
}

/// What a change of the target speed asks of the surroundings.
#[derive(Clone, Copy, Debug, PartialEq, Eq, Structural)]
pub enum SpeedOrder {
    /// Cancel the periodic tick, clear the controller's integral term and set
    /// the motor to zero.
    Halt,
    /// Start the periodic tick unless it is already scheduled.
    Run,
}

impl SpeedState {
    /// The state after a tick at `position`, and the position change to feed
    /// to the controller as its measurement. While inactive a tick is
    /// ignored.
    pub open spec fn tick(self, position: i64) -> (SpeedState, Option<i64>) {
        if self.active {
            (
                SpeedState { last_position: position, ..self },
                Some(clamp64(position - self.last_position)),
            )
        } else {
            (self, None)
        }
    }

    /// The state after the target speed was set, and what is to be done.
    /// `zero` says whether the speed asked for is zero.
    pub open spec fn set_speed(self, zero: bool) -> (SpeedState, SpeedOrder) {
        (
            SpeedState { active: !zero, ..self },
            if zero {
                SpeedOrder::Halt
            } else {
                SpeedOrder::Run
            },
        )
    }
}

/// The velocity loop of one wheel.
#[derive(Clone, Copy, Debug)]
pub struct SpeedControl {
    active: bool,
    last_position: i64,
}

impl View for SpeedControl {
    type V = SpeedState;

    closed spec fn view(&self) -> SpeedState {
        SpeedState { active: self.active, last_position: self.last_position }
    }
}

impl SpeedControl {
    /// An inactive loop that last saw position zero.
    pub fn new() -> (control: SpeedControl)
        ensures
            control@ == (SpeedState { active: false, last_position: 0 }),
    {
        SpeedControl { active: false, last_position: 0 }
    }

    /// Whether a non-zero speed is being held.
    pub fn is_active(&self) -> (active: bool)
        ensures
            active == self@.active,
    {
        self.active
    }

    /// Takes one tick with the wheel at `position` degrees. While active,
    /// returns the change since the last tick, which is the measurement for
    /// the controller, and remembers the position; while inactive, returns
    /// nothing and changes nothing.
    pub fn tick(&mut self, position: i64) -> (delta: Option<i64>)
        ensures
            final(self)@ == old(self)@.tick(position).0,
            delta == old(self)@.tick(position).1,
    {
        if !self.active {
            return None;
        }
        let delta = match position.checked_sub(self.last_position) {
            Some(change) => change,
            None => if position > self.last_position {
                i64::MAX
            } else {
                i64::MIN
            },
        };
        self.last_position = position;
        Some(delta)
    }

    /// Takes a new target speed. `zero` says whether the speed asked for is
    /// zero: a zero speed halts the loop, any other runs it.
    pub fn set_speed(&mut self, zero: bool) -> (order: SpeedOrder)
        ensures
            final(self)@ == old(self)@.set_speed(zero).0,
            order == old(self)@.set_speed(zero).1,
    {
        self.active = !zero;
        if zero {
            SpeedOrder::Halt
        } else {
            SpeedOrder::Run
        }
    }
}

/// A zero target speed always halts: the loop is inactive afterwards, the
/// order is the one that clears the integral term, and ticks are ignored
/// until a non-zero target arrives.
pub proof fn law_zero_speed_halts(state: SpeedState, position: i64)
    ensures
        state.set_speed(true).1 == SpeedOrder::Halt,
        !state.set_speed(true).0.active,
        state.set_speed(true).0.tick(position) == (state.set_speed(true).0, None::<i64>),
{
}

/// Over a run of ticks the position changes handed out add up to the
/// distance covered: two ticks in a row report the change to the first
/// position and then from the first to the second.
pub proof fn law_deltas_add_up(state: SpeedState, first: i64, second: i64)
    requires
        state.active,
        i64::MIN <= first - state.last_position <= i64::MAX,
        i64::MIN <= second - first <= i64::MAX,
    ensures
        state.tick(first).1 == Some((first - state.last_position) as i64),
        state.tick(first).0.tick(second).1 == Some((second - first) as i64),
        state.tick(first).1->0 + state.tick(first).0.tick(second).1->0 == second
            - state.last_position,
{
}

} // verus!
