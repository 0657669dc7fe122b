//! What the logger decides about a record: whether it is written, and in
//! which colour.

use vstd::prelude::*;
use vstd::string::StringExecFns;

verus! {

/// Severity of a log record, the most severe first.
#[derive(Clone, Copy, Debug, PartialEq, Eq, Structural)]
pub enum Level {
    Error,
    Warn,
    Info,
    Debug,
    Trace,
}

/// The place of a level in the order of severity, the most severe first.
pub open spec fn rank(level: Level) -> int {
    match level {
        Level::Error => 1,
        Level::Warn => 2,
        Level::Info => 3,
        Level::Debug => 4,
        Level::Trace => 5,
    }
}

/// The terminal colour of a level: red for errors, brown for warnings,
/// green for information, none below that.
pub open spec fn color_of(level: Level) -> Option<u8> {
    match level {
        Level::Error => Some(31u8),
        Level::Warn => Some(33u8),
        Level::Info => Some(32u8),
        _ => None,
    }
}

/// The escape sequence that switches to the colour of a level; empty where
/// the level has no colour.
pub open spec fn color_on(level: Level) -> Seq<char> {
    match level {
        Level::Error => "\x1b[0;31m"@,
        Level::Warn => "\x1b[0;33m"@,
        Level::Info => "\x1b[0;32m"@,
        _ => Seq::<char>::empty(),
    }
}

/// The escape sequence that switches the colour off again; empty where the
/// level has no colour.
pub open spec fn color_off(level: Level) -> Seq<char> {
    if color_of(level) is Some {
        "\x1b[0m"@
    } else {
        Seq::<char>::empty()
    }
}

/// The place of a level in the order of severity.
fn rank_of(level: Level) -> (place: u8)
    ensures
        place == rank(level),
{
    match level {
        Level::Error => 1,
        Level::Warn => 2,
        Level::Info => 3,
        Level::Debug => 4,
        Level::Trace => 5,
    }
}

/// Whether a record of this level is written, given the least severe level
/// that is let through; with `None` logging is off.
pub fn enabled(level: Level, max_level: Option<Level>) -> (on: bool)
    ensures
        on == (max_level matches Some(max) && rank(level) <= rank(max)),
{
    match max_level {
        Some(max) => rank_of(level) <= rank_of(max),
        None => false,
    }
}

/// The terminal colour of a level.
pub fn get_color(level: Level) -> (color: Option<u8>)
    ensures
        color == color_of(level),
{
    match level {
        Level::Error => Some(31),
        Level::Warn => Some(33),
        Level::Info => Some(32),
        _ => None,
    }
}

/// The text wrapped in the escape sequences of its level's colour, or the
/// text as it is where the level has none.
pub fn add_color_for_level(s: &str, level: Level) -> (painted: String)
    ensures
        painted@ == color_on(level) + s@ + color_off(level),
{
    let on = match level {
        Level::Error => "\x1b[0;31m",
        Level::Warn => "\x1b[0;33m",
        Level::Info => "\x1b[0;32m",
        _ => {
            let plain = s.to_owned();
            assert(plain@ =~= color_on(level) + s@ + color_off(level));
            return plain;
        },
    };
    let mut painted = on.to_owned();
    painted.append(s);
    painted.append("\x1b[0m");
    painted
}

} // verus!
