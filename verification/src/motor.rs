//! What the motor driver decides: which way the phase pin goes.

use crate::lidar::PinLevel;
use vstd::prelude::*;

verus! {

/// The direction the motor is to turn in: the sign of the duty asked for,
/// reversed where the motor is mounted inverted. Positive, negative, or zero
/// for no direction at all.
pub open spec fn direction_of(sign: i8, invert: bool) -> int {
    if invert {
        -sign
    } else {
        sign as int
    }
}

/// The level of the phase pin for a direction: low for forward, high for
/// reverse, and no change without a direction.
pub open spec fn phase_of(direction: int) -> Option<PinLevel> {
    if direction > 0 {
        Some(PinLevel::Low)
    } else if direction < 0 {
        Some(PinLevel::High)
    } else {
        None
    }
}

/// The level that the phase pin is to take, if it is to change, for a duty
/// of the given sign on a motor that is or is not inverted.
pub fn phase(sign: i8, invert: bool) -> (level: Option<PinLevel>)
    ensures
        level == phase_of(direction_of(sign, invert)),
{
    let forward = if invert {
        sign < 0
    } else {
        sign > 0
    };
    if forward {
        Some(PinLevel::Low)
    } else if sign != 0 {
        Some(PinLevel::High)
    } else {
        None
    }
}

} // verus!
