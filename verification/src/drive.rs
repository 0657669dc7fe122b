//! Differential drive: turns one drive command into what each of the two
//! wheels is told.

use vstd::prelude::*;

verus! {

/// A command to the drive.
#[derive(Clone, Copy, Debug, PartialEq, Eq, Structural)]
pub enum DriveCmd {
    /// General motion by translational speed, angular speed and distance,
    /// carried as three raw words. Accepted, and answered with no motion.
    Drive(u32, u32, u32),
    /// Pivot by this many degrees on one wheel.
    Rotate(i64),
    /// Advance both wheels by this many mm.
    Move(i64),
    /// Bring both wheels to a graceful stop.
    Stop,
}

/// What one wheel is told.
#[derive(Clone, Copy, Debug, PartialEq, Eq, Structural)]
pub enum WheelOrder {
    /// Nothing: the wheel is left as it is.
    Keep,
    /// Go to this absolute position (mm).
    Goto(i64),
    /// Stop gracefully.
    Stop,
}

/// The orders for both wheels.
#[derive(Clone, Copy, Debug, PartialEq, Eq, Structural)]
pub struct DrivePlan {
    pub left: WheelOrder,
    pub right: WheelOrder,
}

/// Magnitude of `x`.
pub open spec fn magnitude(x: int) -> int {
    if x < 0 {
        -x
    } else {
        x
    }
}

/// Where a command sends the left wheel, if anywhere.
pub open spec fn left_target(cmd: DriveCmd, left: int, arc: int) -> Option<int> {
    match cmd {
        DriveCmd::Move(distance) => Some(left + distance),
        DriveCmd::Rotate(degrees) => if degrees > 0 {
            Some(left + arc)
        } else {
            None
        },
        _ => None,
    }
}

/// Where a command sends the right wheel, if anywhere.
pub open spec fn right_target(cmd: DriveCmd, right: int, arc: int) -> Option<int> {
    match cmd {
        DriveCmd::Move(distance) => Some(right + distance),
        DriveCmd::Rotate(degrees) => if degrees > 0 {
            None
        } else {
            Some(right + magnitude(arc))
        },
        _ => None,
    }
}

/// The order a wheel gets: the stop of a `Stop`, else its target, else nothing.
pub open spec fn order_of(cmd: DriveCmd, target: Option<int>) -> WheelOrder {
    if cmd is Stop {
        WheelOrder::Stop
    } else {
        match target {
            Some(position) => WheelOrder::Goto(position as i64),
            None => WheelOrder::Keep,
        }
    }
}

/// Whether a target, if there is one, is a position a wheel can hold.
pub open spec fn reachable(target: Option<int>) -> bool {
    match target {
        Some(position) => i64::MIN <= position <= i64::MAX,
        None => true,
    }
}

/// The drive: two wheels, `wheel_dist` mm apart.
#[derive(Clone, Copy, Debug)]
pub struct Drive {
    wheel_dist: i32,
}

impl Drive {
    pub closed spec fn separation(&self) -> i32 {
        self.wheel_dist
    }

    /// A drive whose wheels are `wheel_dist` mm apart.
    pub fn new(wheel_dist: i32) -> (drive: Drive)
        ensures
            drive.separation() == wheel_dist,
    {
        Drive { wheel_dist }
    }

    /// Distance between the wheels in mm.
    #[verifier::when_used_as_spec(separation)]
    pub fn wheel_dist(&self) -> (dist: i32)
        ensures
            dist == self.separation(),
    {
        self.wheel_dist
    }

    /// The orders that `cmd` gives the wheels, which stand at `left` and
    /// `right` mm. `arc` is the length in mm of the arc that the degrees of a
    /// `Rotate` sweep at the wheel separation; no other command reads it.
    ///
    /// `Move` is relative to where each wheel stands. `Rotate` pivots on one
    /// wheel: a positive angle advances the left wheel by the arc, any other
    /// angle advances the right wheel by the arc's magnitude. `Drive` moves
    /// nothing. There is no plan exactly when a target would leave the range
    /// of a position.
    pub fn plan(&self, cmd: DriveCmd, left: i64, right: i64, arc: i64) -> (plan: Option<DrivePlan>)
        ensures
            plan is Some <==> reachable(left_target(cmd, left as int, arc as int)) && reachable(
                right_target(cmd, right as int, arc as int),
            ),
            plan matches Some(orders) ==> {
                &&& orders.left == order_of(cmd, left_target(cmd, left as int, arc as int))
                &&& orders.right == order_of(cmd, right_target(cmd, right as int, arc as int))
            },
    {
        match cmd {
            DriveCmd::Move(distance) => {
                match (left.checked_add(distance), right.checked_add(distance)) {
                    (Some(to_left), Some(to_right)) => Some(
                        DrivePlan {
                            left: WheelOrder::Goto(to_left),
                            right: WheelOrder::Goto(to_right),
                        },
                    ),
                    _ => None,
                }
            },
            DriveCmd::Rotate(degrees) => {
                if degrees > 0 {
                    match left.checked_add(arc) {
                        Some(to_left) => Some(
                            DrivePlan { left: WheelOrder::Goto(to_left), right: WheelOrder::Keep },
                        ),
                        None => None,
                    }
                } else {
                    let target = if arc < 0 {
                        right.checked_sub(arc)
                    } else {
                        right.checked_add(arc)
                    };
                    match target {
                        Some(to_right) => Some(
                            DrivePlan { left: WheelOrder::Keep, right: WheelOrder::Goto(to_right) },
                        ),
                        None => None,
                    }
                }
            },
            DriveCmd::Drive(_, _, _) => Some(
                DrivePlan { left: WheelOrder::Keep, right: WheelOrder::Keep },
            ),
            DriveCmd::Stop => Some(DrivePlan { left: WheelOrder::Stop, right: WheelOrder::Stop }),
        }
    }

    /// The drive is active while either wheel is.
    pub fn is_active(&self, left_active: bool, right_active: bool) -> (active: bool)
        ensures
            active == (left_active || right_active),
    {
        left_active || right_active
    }
}

/// A rotation moves one wheel only: a positive angle sends the left wheel
/// forward by the arc and gives the right wheel no order; a negative angle
/// sends the right wheel forward by the arc's magnitude and gives the left
/// wheel no order.
pub proof fn law_rotate_moves_one_wheel(degrees: i64, left: i64, right: i64, arc: i64)
    requires
        degrees != 0,
    ensures
        degrees > 0 ==> {
            &&& left_target(DriveCmd::Rotate(degrees), left as int, arc as int) == Some(left + arc)
            &&& order_of(
                DriveCmd::Rotate(degrees),
                right_target(DriveCmd::Rotate(degrees), right as int, arc as int),
            ) == WheelOrder::Keep
        },
        degrees < 0 ==> {
            &&& right_target(DriveCmd::Rotate(degrees), right as int, arc as int) == Some(
                right + magnitude(arc as int),
            )
            &&& order_of(
                DriveCmd::Rotate(degrees),
                left_target(DriveCmd::Rotate(degrees), left as int, arc as int),
            ) == WheelOrder::Keep
        },
{
}

} // verus!
