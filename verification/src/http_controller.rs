//! The HTTP command surface: what a request for `/`, `/brain` or `/drive`
//! asks of the rover, read from the query of its URI.

use crate::brain::BrainCmd;
use vstd::pervasive::unreached;
use vstd::prelude::*;

verus! {

/// The error of the URI parser.
#[verifier::external_type_specification]
#[verifier::external_body]
pub struct ExParseError(url::ParseError);

/// The error of the integer parser.
#[verifier::external_type_specification]
#[verifier::external_body]
pub struct ExParseIntError(core::num::ParseIntError);

/// The base against which the URI of a request is read.
pub const BASE: &'static str = "http://localhost";

/// The name and value pairs of the query of `uri`, read as a reference
/// relative to the absolute URL `base`, in the order in which they stand;
/// `None` where `base` is no absolute URL or `uri` no reference against it.
pub uninterp spec fn query_of(base: Seq<char>, uri: Seq<char>) -> Option<
    Seq<(Seq<char>, Seq<char>)>,
>;

/// Whether the text is made of ASCII decimal digits alone.
pub open spec fn all_digits(text: Seq<char>) -> bool {
    forall|i: int| 0 <= i < text.len() ==> 0x30 <= #[trigger] text[i] as int <= 0x39
}

/// The number that a run of decimal digits writes.
pub open spec fn digits_value(digits: Seq<char>) -> int
    decreases digits.len(),
{
    if digits.len() == 0 {
        0
    } else {
        digits_value(digits.drop_last()) * 10 + (digits.last() as int - 0x30)
    }
}

/// The number that `text` is the decimal notation of: an optional `+` or
/// `-`, then one or more ASCII digits and nothing else, for a value that
/// fits a 64-bit signed integer. `None` for every other text.
pub open spec fn integer_of(text: Seq<char>) -> Option<i64> {
    let signed = text.len() > 0 && (text[0] == '-' || text[0] == '+');
    let digits = if signed {
        text.drop_first()
    } else {
        text
    };
    let value = if signed && text[0] == '-' {
        -digits_value(digits)
    } else {
        digits_value(digits)
    };
    if digits.len() > 0 && all_digits(digits) && i64::MIN <= value <= i64::MAX {
        Some(value as i64)
    } else {
        None
    }
}

/// The pairs as plain text.
pub open spec fn texts(pairs: Seq<(String, String)>) -> Seq<(Seq<char>, Seq<char>)> {
    Seq::new(pairs.len(), |i: int| (pairs[i].0@, pairs[i].1@))
}

/// `url::Url::parse` on `base`, `url::ParseOptions::parse` on `uri` against
/// it, and `url::Url::query_pairs` on the result. Claims that the outcome
/// depends on the two texts alone: the pairs are `query_of` of them, and the
/// parser's error comes exactly where there are none.
#[verifier::external_body]
fn query_pairs(base: &str, uri: &str) -> (pairs: Result<Vec<(String, String)>, url::ParseError>)
    ensures
        match pairs {
            Ok(found) => query_of(base@, uri@) == Some(texts(found@)),
            Err(_) => query_of(base@, uri@) is None,
        },
{
    let base = url::Url::parse(base)?;
    let url = url::Url::options().base_url(Some(&base)).parse(uri)?;
    Ok(url.query_pairs().into_owned().collect())
}

/// `str::parse` for `i64`. Claims what the standard library documents: the
/// text is read as an optional sign followed by decimal digits only, and
/// the error comes exactly where the text is no such notation or the number
/// does not fit.
#[verifier::external_body]
fn parse_integer(text: &str) -> (number: Result<i64, core::num::ParseIntError>)
    ensures
        match number {
            Ok(n) => integer_of(text@) == Some(n),
            Err(_) => integer_of(text@) is None,
        },
{
    text.parse::<i64>()
}

/// Whether two strings hold the same characters.
fn same_text(a: &str, b: &str) -> (same: bool)
    ensures
        same == (a@ == b@),
{
    a.to_owned() == b.to_owned()
}

/// Why a request could not be read.
#[derive(Debug)]
pub enum HttpError {
    /// The URI does not parse.
    Uri(url::ParseError),
    /// A distance or an angle is no number.
    Number(core::num::ParseIntError),
}

/// The line that answers a drive request.
#[derive(Clone, Copy, Debug, PartialEq, Eq, Structural)]
pub enum Message {
    Done,
    Conflict,
}

impl Message {
    /// The text of the line.
    pub fn text(&self) -> (text: &'static str)
        ensures
            text@ == match *self {
                Message::Done => "OK"@,
                Message::Conflict => "Can't move and rotate at the same time!"@,
            },
    {
        match self {
            Message::Done => "OK",
            Message::Conflict => "Can't move and rotate at the same time!",
        }
    }
}

/// How a request is answered.
#[derive(Clone, Copy, Debug, PartialEq, Eq, Structural)]
pub enum Reply {
    /// Redirect to `/`.
    Redirect,
    /// The control page.
    Page,
    /// An empty success.
    Empty,
    /// A success with this line.
    Line(Message),
}

/// What a request comes to: the commands for the rover, in order, and the
/// answer.
#[derive(Debug)]
pub struct Response {
    pub commands: Vec<BrainCmd>,
    pub reply: Reply,
}

/// Whether a value switches on: `on`, `true`, `run` and `running` do, and
/// nothing else does.
pub open spec fn truth(value: Seq<char>) -> bool {
    value == "on"@ || value == "true"@ || value == "run"@ || value == "running"@
}

/// The switch that the last `state` pair asks for, if there is such a pair.
pub open spec fn state_of(pairs: Seq<(Seq<char>, Seq<char>)>) -> Option<bool>
    decreases pairs.len(),
{
    if pairs.len() == 0 {
        None
    } else if pairs.last().0 == "state"@ {
        Some(truth(pairs.last().1))
    } else {
        state_of(pairs.drop_last())
    }
}

/// What a drive request says.
#[derive(Clone, Copy, Debug, PartialEq, Eq)]
pub struct DriveQuery {
    /// The distance of the last `move` pair that gives one.
    pub move_value: Option<i64>,
    /// The angle of the last `rotate` pair that gives one.
    pub rotate_value: Option<i64>,
    /// Whether there is a `left` pair.
    pub left: bool,
    /// Whether there is a `right` pair.
    pub right: bool,
    /// Whether a `move` or `rotate` pair says `stop`.
    pub stop: bool,
}

/// The query that says nothing.
pub open spec fn silent() -> DriveQuery {
    DriveQuery { move_value: None, rotate_value: None, left: false, right: false, stop: false }
}

/// The query after one more pair was read, given the number that the
/// pair's value stands for; `None` where the pair needs a number and has
/// none.
pub open spec fn noted(
    query: DriveQuery,
    name: Seq<char>,
    value: Seq<char>,
    number: Option<i64>,
) -> Option<DriveQuery> {
    if name == "move"@ {
        if value == "stop"@ {
            Some(DriveQuery { stop: true, ..query })
        } else if number is Some {
            Some(DriveQuery { move_value: number, ..query })
        } else {
            None
        }
    } else if name == "rotate"@ {
        if value == "stop"@ {
            Some(DriveQuery { stop: true, ..query })
        } else if number is Some {
            Some(DriveQuery { rotate_value: number, ..query })
        } else {
            None
        }
    } else if name == "left"@ {
        Some(DriveQuery { left: true, ..query })
    } else if name == "right"@ {
        Some(DriveQuery { right: true, ..query })
    } else {
        Some(query)
    }
}

/// What the pairs of a drive request say, read in order; `None` where a
/// distance or an angle is no number.
pub open spec fn drive_query(pairs: Seq<(Seq<char>, Seq<char>)>) -> Option<DriveQuery>
    decreases pairs.len(),
{
    if pairs.len() == 0 {
        Some(silent())
    } else {
        match drive_query(pairs.drop_last()) {
            Some(query) => noted(
                query,
                pairs.last().0,
                pairs.last().1,
                integer_of(pairs.last().1),
            ),
            None => None,
        }
    }
}

/// The commands that a drive query comes to. A stop wins over everything. A
/// distance together with an angle is refused. A distance goes to the sides
/// that are named, to both as one move where none is. An angle alone is a
/// rotation.
pub open spec fn drive_commands(query: DriveQuery) -> Seq<BrainCmd> {
    if query.stop {
        seq![BrainCmd::Move(0)]
    } else {
        match (query.move_value, query.rotate_value) {
            (Some(_), Some(_)) => seq![],
            (Some(distance), None) => if query.left && query.right {
                seq![BrainCmd::Left(distance), BrainCmd::Right(distance)]
            } else if query.left {
                seq![BrainCmd::Left(distance)]
            } else if query.right {
                seq![BrainCmd::Right(distance)]
            } else {
                seq![BrainCmd::Move(distance)]
            },
            (None, Some(degrees)) => seq![BrainCmd::Rotate(degrees)],
            (None, None) => seq![],
        }
    }
}

/// The line that answers a drive query.
pub open spec fn drive_message(query: DriveQuery) -> Message {
    if !query.stop && query.move_value is Some && query.rotate_value is Some {
        Message::Conflict
    } else {
        Message::Done
    }
}

/// Whether a value switches on.
pub fn value_to_bool(value: &str) -> (on: bool)
    ensures
        on == truth(value@),
{
    same_text(value, "on") || same_text(value, "true") || same_text(value, "run") || same_text(
        value,
        "running",
    )
}

/// The switch that the last `state` pair asks for, if there is such a pair.
pub fn requested_state(pairs: &Vec<(String, String)>) -> (state: Option<bool>)
    ensures
        state == state_of(texts(pairs@)),
{
    let mut state: Option<bool> = None;
    let mut i: usize = 0;
    while i < pairs.len()
        invariant
            i <= pairs.len(),
            state == state_of(texts(pairs@).take(i as int)),
        decreases pairs.len() - i,
    {
        proof {
            let read = texts(pairs@).take(i + 1);
            assert(read.drop_last() =~= texts(pairs@).take(i as int));
            assert(read.last() == (pairs@[i as int].0@, pairs@[i as int].1@));
        }
        if same_text(pairs[i].0.as_str(), "state") {
            state = Some(value_to_bool(pairs[i].1.as_str()));
        }
        i = i + 1;
    }
    proof {
        assert(texts(pairs@).take(i as int) =~= texts(pairs@));
    }
    state
}

/// Reads one more pair of a drive request into the query. `number` is what
/// the integer parser made of the value.
pub fn note(query: DriveQuery, name: &str, value: &str, number: Option<i64>) -> (next: Option<
    DriveQuery,
>)
    ensures
        next == noted(query, name@, value@, number),
{
    let mut next = query;
    if same_text(name, "move") {
        if same_text(value, "stop") {
            next.stop = true;
        } else if number.is_some() {
            next.move_value = number;
        } else {
            return None;
        }
    } else if same_text(name, "rotate") {
        if same_text(value, "stop") {
            next.stop = true;
        } else if number.is_some() {
            next.rotate_value = number;
        } else {
            return None;
        }
    } else if same_text(name, "left") {
        next.left = true;
    } else if same_text(name, "right") {
        next.right = true;
    }
    Some(next)
}

/// Reads the pairs of a drive request, in order. Fails with the integer
/// parser's error at the first distance or angle that is no number.
pub fn read_drive_query(pairs: &Vec<(String, String)>) -> (query: Result<
    DriveQuery,
    core::num::ParseIntError,
>)
    ensures
        match query {
            Ok(read) => drive_query(texts(pairs@)) == Some(read),
            Err(_) => drive_query(texts(pairs@)) is None,
        },
{
    let mut query = DriveQuery {
        move_value: None,
        rotate_value: None,
        left: false,
        right: false,
        stop: false,
    };
    let mut i: usize = 0;
    while i < pairs.len()
        invariant
            i <= pairs.len(),
            drive_query(texts(pairs@).take(i as int)) == Some(query),
        decreases pairs.len() - i,
    {
        proof {
            let read = texts(pairs@).take(i + 1);
            assert(read.drop_last() =~= texts(pairs@).take(i as int));
            assert(read.last() == (pairs@[i as int].0@, pairs@[i as int].1@));
        }
        let name = pairs[i].0.as_str();
        let value = pairs[i].1.as_str();
        let numeric = (same_text(name, "move") || same_text(name, "rotate")) && !same_text(
            value,
            "stop",
        );
        let number = if numeric {
            match parse_integer(value) {
                Ok(n) => Some(n),
                Err(error) => {
                    proof {
                        lemma_failure_is_final(texts(pairs@), i + 1);
                    }
                    return Err(error);
                },
            }
        } else {
            None
        };
        query = match note(query, name, value, number) {
            Some(next) => next,
            None => unreached(),
        };
        i = i + 1;
    }
    proof {
        assert(texts(pairs@).take(i as int) =~= texts(pairs@));
    }
    Ok(query)
}

/// Once a pair cannot be read, no later pair mends it.
pub proof fn lemma_failure_is_final(pairs: Seq<(Seq<char>, Seq<char>)>, read: int)
    requires
        0 <= read <= pairs.len(),
        drive_query(pairs.take(read)) is None,
    ensures
        drive_query(pairs) is None,
    decreases pairs.len() - read,
{
    if read < pairs.len() {
        assert(pairs.take(read + 1).drop_last() =~= pairs.take(read));
        lemma_failure_is_final(pairs, read + 1);
    } else {
        assert(pairs.take(read) =~= pairs);
    }
}

/// The commands and the line that a drive query comes to.
pub fn plan_drive(query: &DriveQuery) -> (response: Response)
    ensures
        response.commands@ == drive_commands(*query),
        response.reply == Reply::Line(drive_message(*query)),
{
    let mut commands: Vec<BrainCmd> = Vec::new();
    let mut message = Message::Done;
    if query.stop {
        commands.push(BrainCmd::Move(0));
    } else if query.move_value.is_some() && query.rotate_value.is_some() {
        message = Message::Conflict;
    } else if let Some(distance) = query.move_value {
        if query.left {
            commands.push(BrainCmd::Left(distance));
        }
        if query.right {
            commands.push(BrainCmd::Right(distance));
        }
        if !query.left && !query.right {
            commands.push(BrainCmd::Move(distance));
        }
    } else if let Some(degrees) = query.rotate_value {
        commands.push(BrainCmd::Rotate(degrees));
    }
    assert(commands@ =~= drive_commands(*query));
    Response { commands, reply: Reply::Line(message) }
}

/// The commands and the answer of a request for `/` with these pairs: a
/// `state` pair switches navigation and is answered with a redirect; without
/// one the control page is served.
pub fn root_response(pairs: &Vec<(String, String)>) -> (response: Response)
    ensures
        response.commands@ == match state_of(texts(pairs@)) {
            Some(on) => seq![BrainCmd::State(on)],
            None => seq![],
        },
        response.reply == if state_of(texts(pairs@)) is Some {
            Reply::Redirect
        } else {
            Reply::Page
        },
{
    let mut commands: Vec<BrainCmd> = Vec::new();
    match requested_state(pairs) {
        Some(on) => {
            commands.push(BrainCmd::State(on));
            assert(commands@ =~= seq![BrainCmd::State(on)]);
            Response { commands, reply: Reply::Redirect }
        },
        None => Response { commands, reply: Reply::Page },
    }
}

/// The commands and the answer of a request for `/brain` with these pairs:
/// navigation is switched as the last `state` pair says, and off without
/// one.
pub fn brain_response(pairs: &Vec<(String, String)>) -> (response: Response)
    ensures
        response.commands@ == seq![
            BrainCmd::State(
                match state_of(texts(pairs@)) {
                    Some(on) => on,
                    None => false,
                },
            ),
        ],
        response.reply == Reply::Empty,
{
    let on = match requested_state(pairs) {
        Some(on) => on,
        None => false,
    };
    let mut commands: Vec<BrainCmd> = Vec::new();
    commands.push(BrainCmd::State(on));
    assert(commands@ =~= seq![BrainCmd::State(on)]);
    Response { commands, reply: Reply::Empty }
}

/// Handles a request for `/`.
pub fn handle_root(uri: &str) -> (outcome: Result<Response, HttpError>)
    ensures
        match outcome {
            Ok(response) => query_of(BASE@, uri@) matches Some(pairs) && response.commands@ == (
            match state_of(pairs) {
                Some(on) => seq![BrainCmd::State(on)],
                None => seq![],
            }) && response.reply == (if state_of(pairs) is Some {
                Reply::Redirect
            } else {
                Reply::Page
            }),
            Err(error) => query_of(BASE@, uri@) is None && error is Uri,
        },
{
    match query_pairs(BASE, uri) {
        Ok(pairs) => Ok(root_response(&pairs)),
        Err(error) => Err(HttpError::Uri(error)),
    }
}

/// Handles a request for `/brain`.
pub fn handle_brain(uri: &str) -> (outcome: Result<Response, HttpError>)
    ensures
        match outcome {
            Ok(response) => query_of(BASE@, uri@) matches Some(pairs) && response.commands@ == seq![
                BrainCmd::State(
                    match state_of(pairs) {
                        Some(on) => on,
                        None => false,
                    },
                ),
            ] && response.reply == Reply::Empty,
            Err(error) => query_of(BASE@, uri@) is None && error is Uri,
        },
{
    match query_pairs(BASE, uri) {
        Ok(pairs) => Ok(brain_response(&pairs)),
        Err(error) => Err(HttpError::Uri(error)),
    }
}

/// Handles a request for `/drive`.
pub fn handle_drive(uri: &str) -> (outcome: Result<Response, HttpError>)
    ensures
        match outcome {
            Ok(response) => query_of(BASE@, uri@) matches Some(pairs) && drive_query(pairs) matches Some(
                query,
            ) && response.commands@ == drive_commands(query) && response.reply == Reply::Line(
                drive_message(query),
            ),
            Err(HttpError::Uri(_)) => query_of(BASE@, uri@) is None,
            Err(HttpError::Number(_)) => query_of(BASE@, uri@) matches Some(pairs) && drive_query(pairs)
                is None,
        },
{
    match query_pairs(BASE, uri) {
        Ok(pairs) => match read_drive_query(&pairs) {
            Ok(query) => Ok(plan_drive(&query)),
            Err(error) => Err(HttpError::Number(error)),
        },
        Err(error) => Err(HttpError::Uri(error)),
    }
}

} // verus!
