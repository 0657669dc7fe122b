//! The rover's command surface: what each user command sets in motion.

use crate::drive::DriveCmd;
use vstd::prelude::*;

pub mod simple;

verus! {

/// A command from the user.
#[derive(Clone, Copy, Debug, PartialEq, Eq, Structural)]
pub enum BrainCmd {
    /// Autonomous navigation on or off.
    State(bool),
    /// Advance by this many mm; zero stops.
    Move(i64),
    /// Pivot by this many degrees; zero stops.
    Rotate(i64),
    /// Advance the left side by this many mm.
    Left(i64),
    /// Advance the right side by this many mm.
    Right(i64),
    /// Scanner power on or off.
    LidarOnOff(bool),
}

/// What a command sets in motion.
#[derive(Clone, Copy, Debug, PartialEq, Eq, Structural)]
pub enum Effect {
    /// Hand this event to the navigation machine.
    Navigate(simple::Event),
    /// Send this command to the drive.
    Drive(DriveCmd),
    /// Switch the scanner's power.
    Lidar(bool),
    /// Nothing.
    Nothing,
}

/// The effect of a command. Navigation on and off become `Start` and `Stop`
/// of the navigation machine. A move or a rotation by zero stops the drive.
/// `Left` and `Right` are accepted and set nothing in motion: the drive has
/// no command for one side alone.
pub open spec fn effect_of(cmd: BrainCmd) -> Effect {
    match cmd {
        BrainCmd::State(on) => Effect::Navigate(
            if on {
                simple::Event::Start
            } else {
                simple::Event::Stop
            },
        ),
        BrainCmd::Move(distance) => Effect::Drive(
            if distance == 0 {
                DriveCmd::Stop
            } else {
                DriveCmd::Move(distance)
            },
        ),
        BrainCmd::Rotate(degrees) => Effect::Drive(
            if degrees == 0 {
                DriveCmd::Stop
            } else {
                DriveCmd::Rotate(degrees)
            },
        ),
        BrainCmd::LidarOnOff(on) => Effect::Lidar(on),
        BrainCmd::Left(_) | BrainCmd::Right(_) => Effect::Nothing,
    }
}

/// The dispatcher of user commands.
#[derive(Clone, Copy, Debug)]
pub struct Brain {
    active: bool,
}

impl Brain {
    pub closed spec fn navigating(&self) -> bool {
        self.active
    }

    /// A dispatcher with navigation off.
    pub fn new() -> (brain: Brain)
        ensures
            !brain.navigating(),
    {
        Brain { active: false }
    }

    /// Whether the user last switched navigation on.
    #[verifier::when_used_as_spec(navigating)]
    pub fn is_active(&self) -> (active: bool)
        ensures
            active == self.navigating(),
    {
        self.active
    }

    /// Takes one command: records a navigation switch and returns what the
    /// command sets in motion.
    pub fn command(&mut self, cmd: BrainCmd) -> (effect: Effect)
        ensures
            effect == effect_of(cmd),
            final(self).navigating() == (match cmd {
                BrainCmd::State(on) => on,
                _ => old(self).navigating(),
            }),
    {
        match cmd {
            BrainCmd::State(on) => {
                self.active = on;
                if on {
                    Effect::Navigate(simple::Event::Start)
                } else {
                    Effect::Navigate(simple::Event::Stop)
                }
            },
            BrainCmd::Move(distance) => {
                if distance == 0 {
                    Effect::Drive(DriveCmd::Stop)
                } else {
                    Effect::Drive(DriveCmd::Move(distance))
                }
            },
            BrainCmd::Rotate(degrees) => {
                if degrees == 0 {
                    Effect::Drive(DriveCmd::Stop)
                } else {
                    Effect::Drive(DriveCmd::Rotate(degrees))
                }
            },
            BrainCmd::LidarOnOff(on) => Effect::Lidar(on),
            BrainCmd::Left(_) => Effect::Nothing,
            BrainCmd::Right(_) => Effect::Nothing,
        }
    }
}

} // verus!
