//! The reactive navigation machine: search for open space, approach it, back
//! off from obstacles.

use crate::drive::DriveCmd;
use crate::lidar::Frame;
use vstd::prelude::*;

verus! {

/// Seconds the scanner is given to spin up before its frames are trusted.
pub const WARMUP_SECS: u64 = 5;

/// Front range (mm) above which the rover drives off without searching.
pub const CLEAR_AHEAD: u32 = 2000;

/// Front range (mm) above which a search ends in a move.
pub const PATH_FOUND: u32 = 1000;

/// Side range (mm) below which a search is broken off.
pub const SEARCH_SIDE_MIN: u32 = 100;

/// Front range (mm) below which a move is broken off.
pub const MOVE_FRONT_MIN: u32 = 500;

/// Side range (mm) below which a move is broken off.
pub const MOVE_SIDE_MIN: u32 = 250;

/// The pivot (degrees) of a search towards the left.
pub const SEARCH_LEFT: i64 = -270;

/// The pivot (degrees) of a search towards the right.
pub const SEARCH_RIGHT: i64 = 270;

/// What the machine reacts to.
#[derive(Clone, Copy, Debug, PartialEq, Eq, Structural)]
pub enum Event {
    /// The user switched navigation on.
    Start,
    /// The scanner's current ranges.
    Frame(Frame),
    /// The user switched navigation off.
    Stop,
    /// The warm-up timer ran out.
    Timeout,
}

/// Where the machine stands.
#[derive(Clone, Copy, Debug, PartialEq, Eq, Structural)]
pub enum State {
    Idle,
    Warmup,
    SearchChoice,
    Searching,
    Moving,
}

/// What the machine asks of its surroundings.
#[derive(Clone, Copy, Debug, PartialEq, Eq, Structural)]
pub enum Action {
    /// Switch the scanner's power on or off.
    Lidar(bool),
    /// Arm the one-shot timer: a `Timeout` is due after this many seconds.
    Timer(u64),
    /// Send this command to the drive.
    Drive(DriveCmd),
}

/// The state that follows and the actions that are due, in order, when
/// `event` arrives in `state`. `drive_active` says whether the drive still has
/// a motion in progress. Every pair not listed changes nothing and asks for
/// nothing.
pub open spec fn reaction(state: State, event: Event, drive_active: bool) -> (State, Seq<Action>) {
    let halt = Action::Drive(DriveCmd::Stop);
    match (state, event) {
        (State::Idle, Event::Start) => (
            State::Warmup,
            seq![Action::Lidar(true), Action::Timer(WARMUP_SECS)],
        ),
        (State::Warmup, Event::Stop) => (State::Idle, seq![halt]),
        (State::Warmup, Event::Timeout) => (State::SearchChoice, seq![]),
        (State::SearchChoice, Event::Stop) | (State::Searching, Event::Stop) | (
            State::Moving,
            Event::Stop,
        ) => (State::Idle, seq![Action::Lidar(false), halt]),
        (State::SearchChoice, Event::Frame(frame)) => {
            if frame.front() > CLEAR_AHEAD {
                (State::Moving, seq![Action::Drive(DriveCmd::Move(frame.front() as i64))])
            } else if frame.left() > frame.right() {
                (State::Searching, seq![Action::Drive(DriveCmd::Rotate(SEARCH_LEFT))])
            } else {
                (State::Searching, seq![Action::Drive(DriveCmd::Rotate(SEARCH_RIGHT))])
            }
        },
        (State::Searching, Event::Frame(frame)) => {
            if frame.left() < SEARCH_SIDE_MIN || frame.right() < SEARCH_SIDE_MIN {
                (State::SearchChoice, seq![halt])
            } else if frame.front() > PATH_FOUND {
                (State::Moving, seq![halt, Action::Drive(DriveCmd::Move(frame.front() as i64))])
            } else if !drive_active {
                (State::SearchChoice, seq![halt])
            } else {
                (State::Searching, seq![])
            }
        },
        (State::Moving, Event::Frame(frame)) => {
            if frame.front() < MOVE_FRONT_MIN || frame.left() < MOVE_SIDE_MIN || frame.right()
                < MOVE_SIDE_MIN {
                (State::SearchChoice, seq![halt])
            } else if !drive_active {
                (State::SearchChoice, seq![halt])
            } else {
                (State::Moving, seq![])
            }
        },
        _ => (state, seq![]),
    }
}

/// The navigation machine.
#[derive(Clone, Copy, Debug)]
pub struct Simple {
    state: State,
}

impl Simple {
    pub closed spec fn current(&self) -> State {
        self.state
    }

    /// A machine at rest.
    pub fn start() -> (machine: Simple)
        ensures
            machine.current() == State::Idle,
    {
        Simple { state: State::Idle }
    }

    /// Where the machine stands.
    #[verifier::when_used_as_spec(current)]
    pub fn state(&self) -> (state: State)
        ensures
            state == self.current(),
    {
        self.state
    }

    /// Takes one event: moves to the state that follows and returns the
    /// actions that are due, in the order in which they are to be performed.
    pub fn event(&mut self, event: Event, drive_active: bool) -> (actions: Vec<Action>)
        ensures
            final(self).current() == reaction(old(self).current(), event, drive_active).0,
            actions@ == reaction(old(self).current(), event, drive_active).1,
    {
        let mut actions: Vec<Action> = Vec::new();
        match self.state {
            State::Idle => match event {
                Event::Start => {
                    actions.push(Action::Lidar(true));
                    actions.push(Action::Timer(WARMUP_SECS));
                    self.state = State::Warmup;
                },
                _ => {},
            },
            State::Warmup => match event {
                Event::Stop => {
                    actions.push(Action::Drive(DriveCmd::Stop));
                    self.state = State::Idle;
                },
                Event::Timeout => {
                    self.state = State::SearchChoice;
                },
                _ => {},
            },
            State::SearchChoice => match event {
                Event::Stop => {
                    actions.push(Action::Lidar(false));
                    actions.push(Action::Drive(DriveCmd::Stop));
                    self.state = State::Idle;
                },
                Event::Frame(frame) => {
                    let front = frame.get_range_front();
                    let left = frame.get_range_left();
                    let right = frame.get_range_right();
                    if front > CLEAR_AHEAD {
                        actions.push(Action::Drive(DriveCmd::Move(front as i64)));
                        self.state = State::Moving;
                    } else if left > right {
                        actions.push(Action::Drive(DriveCmd::Rotate(SEARCH_LEFT)));
                        self.state = State::Searching;
                    } else {
                        actions.push(Action::Drive(DriveCmd::Rotate(SEARCH_RIGHT)));
                        self.state = State::Searching;
                    }
                },
                _ => {},
            },
            State::Searching => match event {
                Event::Stop => {
                    actions.push(Action::Lidar(false));
                    actions.push(Action::Drive(DriveCmd::Stop));
                    self.state = State::Idle;
                },
                Event::Frame(frame) => {
                    let front = frame.get_range_front();
                    let left = frame.get_range_left();
                    let right = frame.get_range_right();
                    if left < SEARCH_SIDE_MIN || right < SEARCH_SIDE_MIN {
                        actions.push(Action::Drive(DriveCmd::Stop));
                        self.state = State::SearchChoice;
                    } else if front > PATH_FOUND {
                        actions.push(Action::Drive(DriveCmd::Stop));
                        actions.push(Action::Drive(DriveCmd::Move(front as i64)));
                        self.state = State::Moving;
                    } else if !drive_active {
                        actions.push(Action::Drive(DriveCmd::Stop));
                        self.state = State::SearchChoice;
                    }
                },
                _ => {},
            },
            State::Moving => match event {
                Event::Stop => {
                    actions.push(Action::Lidar(false));
                    actions.push(Action::Drive(DriveCmd::Stop));
                    self.state = State::Idle;
                },
                Event::Frame(frame) => {
                    let front = frame.get_range_front();
                    let left = frame.get_range_left();
                    let right = frame.get_range_right();
                    if front < MOVE_FRONT_MIN || left < MOVE_SIDE_MIN || right < MOVE_SIDE_MIN {
                        actions.push(Action::Drive(DriveCmd::Stop));
                        self.state = State::SearchChoice;
                    } else if !drive_active {
                        actions.push(Action::Drive(DriveCmd::Stop));
                        self.state = State::SearchChoice;
                    }
                },
                _ => {},
            },
        }
        actions
    }
}

/// A `Stop` brings the machine to `Idle` from every state, and from every
/// state but `Idle` it halts the drive.
pub proof fn law_stop_reaches_idle(state: State, drive_active: bool)
    ensures
        reaction(state, Event::Stop, drive_active).0 == State::Idle,
        state != State::Idle ==> reaction(state, Event::Stop, drive_active).1.last()
            == Action::Drive(DriveCmd::Stop),
{
}

/// A move is only ever ordered towards open space: by the range in front,
/// and only when that range is above the mark at which a search ends.
pub proof fn law_moves_go_forward(state: State, event: Event, drive_active: bool, i: int)
    requires
        0 <= i < reaction(state, event, drive_active).1.len(),
        reaction(state, event, drive_active).1[i] matches Action::Drive(DriveCmd::Move(_)),
    ensures
        event matches Event::Frame(frame) && frame.front() > PATH_FOUND && reaction(
            state,
            event,
            drive_active,
        ).1[i] == Action::Drive(DriveCmd::Move(frame.front() as i64)) && reaction(
            state,
            event,
            drive_active,
        ).0 == State::Moving,
{
}

} // verus!
