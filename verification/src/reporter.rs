//! Reports the wheel positions when they change.

use vstd::prelude::*;

verus! {

/// The positions last reported.
#[derive(Clone, Copy, Debug, PartialEq, Eq, Structural)]
pub struct PositionReporter {
    pub left: i64,
    pub right: i64,
}

impl PositionReporter {
    /// A reporter that has both wheels at zero.
    pub fn new() -> (reporter: PositionReporter)
        ensures
            reporter == (PositionReporter { left: 0, right: 0 }),
    {
        PositionReporter { left: 0, right: 0 }
    }

    /// Takes the current positions. Says whether they differ from the ones
    /// last reported, and if so remembers them.
    pub fn update(&mut self, left: i64, right: i64) -> (changed: bool)
        ensures
            changed == (left != old(self).left || right != old(self).right),
            *final(self) == (PositionReporter { left, right }),
    {
        if left != self.left || right != self.right {
            self.left = left;
            self.right = right;
            return true;
        }
        false
    }
}

} // verus!
