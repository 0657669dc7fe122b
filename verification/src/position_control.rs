//! Position loop: what the outer control task decides on each tick and on
//! each command. The controller arithmetic itself is done by the caller.

use vstd::prelude::*;

verus! {

/// Degrees within which a target counts as reached.
pub const TOLERANCE: i64 = 2;

/// Whether `position` is within the tolerance of `setpoint`.
pub open spec fn arrived(position: i64, setpoint: i64) -> bool {
    -TOLERANCE <= position - setpoint <= TOLERANCE
}

/// What the position loop is, as plain values.
pub struct PositionState {
    /// Whether a motion is in progress.
    pub active: bool,
    /// Whether a stop is pending, to be consumed by the next tick.
    pub stop: bool,
    /// The target position in degrees.
    pub setpoint: i64,
}

/// What a tick asks of the surroundings.
#[derive(Clone, Copy, Debug, PartialEq, Eq, Structural)]
pub enum PositionOrder {
    /// Nothing: no motion is in progress.
    Ignore,
    /// The motion ends: clear the controller's integral term and set the
    /// speed of the inner loop to zero.
    Halt,
    /// The motion goes on: run the controller on the position and set the
    /// speed of the inner loop to its output.
    Regulate,
}

impl PositionState {
    /// The state after a tick at `position`, and what is to be done.
    pub open spec fn tick(self, position: i64) -> (PositionState, PositionOrder) {
        if !self.active {
            (self, PositionOrder::Ignore)
        } else if self.stop || arrived(position, self.setpoint) {
            (PositionState { active: false, stop: false, ..self }, PositionOrder::Halt)
        } else {
            (self, PositionOrder::Regulate)
        }
    }

    /// The state after a new target was set.
    pub open spec fn set_position(self, target: i64) -> PositionState {
        PositionState { active: true, stop: false, setpoint: target }
    }

    /// The state after a stop was asked for.
    pub open spec fn stop(self) -> PositionState {
        PositionState { stop: true, ..self }
    }

    /// The state after ticks at these positions, one after the other.
    pub open spec fn ticks(self, positions: Seq<i64>) -> PositionState
        decreases positions.len(),
    {
        if positions.len() == 0 {
            self
        } else {
            self.ticks(positions.drop_last()).tick(positions.last()).0
        }
    }
}

/// The position loop of one wheel.
#[derive(Clone, Copy, Debug)]
pub struct PositionControl {
    active: bool,
    stop: bool,
    setpoint: i64,
}

impl View for PositionControl {
    type V = PositionState;

    closed spec fn view(&self) -> PositionState {
        PositionState { active: self.active, stop: self.stop, setpoint: self.setpoint }
    }
}

impl PositionControl {
    /// A loop at rest with target zero.
    pub fn new() -> (control: PositionControl)
        ensures
            control@ == (PositionState { active: false, stop: false, setpoint: 0 }),
    {
        PositionControl { active: false, stop: false, setpoint: 0 }
    }

    /// Whether a motion is in progress.
    pub fn is_active(&self) -> (active: bool)
        ensures
            active == self@.active,
    {
        self.active
    }

    /// The target position in degrees.
    pub fn setpoint(&self) -> (setpoint: i64)
        ensures
            setpoint == self@.setpoint,
    {
        self.setpoint
    }

    /// Takes one tick with the wheel at `position` degrees. At rest the tick
    /// is ignored. In motion, a pending stop or a position within the
    /// tolerance of the target ends the motion and consumes the stop;
    /// otherwise the motion goes on.
    pub fn tick(&mut self, position: i64) -> (order: PositionOrder)
        ensures
            final(self)@ == old(self)@.tick(position).0,
            order == old(self)@.tick(position).1,
    {
        if !self.active {
            return PositionOrder::Ignore;
        }
        let gap: i128 = position as i128 - self.setpoint as i128;
        if self.stop || (-(TOLERANCE as i128) <= gap && gap <= TOLERANCE as i128) {
            self.active = false;
            self.stop = false;
            PositionOrder::Halt
        } else {
            PositionOrder::Regulate
        }
    }

    /// Sets a new target: the loop is in motion towards it and no stop is
    /// pending. The periodic tick is to be started unless it is scheduled.
    pub fn set_position(&mut self, target: i64)
        ensures
            final(self)@ == old(self)@.set_position(target),
    {
        self.setpoint = target;
        self.stop = false;
        self.active = true;
    }

    /// Asks for a graceful stop: the next tick ends the motion.
    pub fn stop(&mut self)
        ensures
            final(self)@ == old(self)@.stop(),
    {
        self.stop = true;
    }
}

/// Once the position is within the tolerance of the target, the next tick
/// ends the motion; until then, and with no stop pending, every tick keeps it
/// going.
pub proof fn law_motion_ends_on_arrival(state: PositionState, target: i64, position: i64)
    ensures
        arrived(position, target) ==> {
            &&& state.set_position(target).tick(position).1 == PositionOrder::Halt
            &&& !state.set_position(target).tick(position).0.active
        },
        !arrived(position, target) ==> {
            &&& state.set_position(target).tick(position).1 == PositionOrder::Regulate
            &&& state.set_position(target).tick(position).0 == state.set_position(target)
        },
{
}

/// A stop is graceful: it changes nothing at once, and the next tick ends
/// the motion wherever the wheel is and clears the stop.
pub proof fn law_stop_takes_effect_on_next_tick(state: PositionState, position: i64)
    requires
        state.active,
    ensures
        state.stop().active,
        state.stop().setpoint == state.setpoint,
        state.stop().tick(position).1 == PositionOrder::Halt,
        !state.stop().tick(position).0.active,
        !state.stop().tick(position).0.stop,
{
}

/// A new target while in motion retargets and cancels a pending stop.
pub proof fn law_retarget_clears_stop(state: PositionState, target: i64)
    ensures
        state.stop().set_position(target) == state.set_position(target),
        state.set_position(target).active,
        !state.set_position(target).stop,
{
}

/// Over any run of ticks after a target was set, with no stop asked for:
/// the motion lasts exactly as long as no tick has found the wheel within
/// the tolerance of the target. Every tick until then keeps the controller
/// going, the first that finds the wheel there ends the motion, and every
/// tick after that is ignored. The target stays as set.
pub proof fn law_motion_lasts_until_arrival(
    state: PositionState,
    target: i64,
    positions: Seq<i64>,
)
    ensures
        ({
            let after = state.set_position(target).ticks(positions);
            &&& after.active <==> forall|i: int|
                0 <= i < positions.len() ==> !arrived(#[trigger] positions[i], target)
            &&& after.setpoint == target
            &&& !after.stop
        }),
        positions.len() > 0 ==> ({
            let before = state.set_position(target).ticks(positions.drop_last());
            before.tick(positions.last()).1 == if !before.active {
                PositionOrder::Ignore
            } else if arrived(positions.last(), target) {
                PositionOrder::Halt
            } else {
                PositionOrder::Regulate
            }
        }),
    decreases positions.len(),
{
    if positions.len() > 0 {
        let earlier = positions.drop_last();
        law_motion_lasts_until_arrival(state, target, earlier);
        let before = state.set_position(target).ticks(earlier);
        let after = state.set_position(target).ticks(positions);
        assert(after == before.tick(positions.last()).0);
        if after.active {
            assert forall|i: int| 0 <= i < positions.len() implies !arrived(
                #[trigger] positions[i],
                target,
            ) by {
                if i < earlier.len() {
                    assert(earlier[i] == positions[i]);
                }
            }
        } else if before.active {
            assert(arrived(positions[positions.len() - 1], target));
        } else {
            let i = choose|i: int| 0 <= i < earlier.len() && arrived(#[trigger] earlier[i], target);
            assert(earlier[i] == positions[i]);
        }
    }
}

} // verus!
