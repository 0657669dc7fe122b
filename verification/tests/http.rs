use rover::brain::BrainCmd;
use rover::http_controller::{
    brain_response, handle_brain, handle_drive, handle_root, note, plan_drive, read_drive_query,
    requested_state, root_response, value_to_bool, DriveQuery, HttpError, Message, Reply, BASE,
};

fn pairs(list: &[(&str, &str)]) -> Vec<(String, String)> {
    list.iter().map(|(name, value)| (name.to_string(), value.to_string())).collect()
}

const SILENT: DriveQuery =
    DriveQuery { move_value: None, rotate_value: None, left: false, right: false, stop: false };

#[test]
fn values_that_switch_on() {
    for value in ["on", "true", "run", "running"] {
        assert!(value_to_bool(value));
    }
    for value in ["off", "false", "stop", "stopped", "", "ON", "yes", "1", "on ", "runn"] {
        assert!(!value_to_bool(value));
    }
}

#[test]
fn the_last_state_pair_decides() {
    assert_eq!(requested_state(&pairs(&[])), None);
    assert_eq!(requested_state(&pairs(&[("speed", "on")])), None);
    assert_eq!(requested_state(&pairs(&[("state", "on")])), Some(true));
    assert_eq!(requested_state(&pairs(&[("state", "on"), ("state", "off")])), Some(false));
    assert_eq!(requested_state(&pairs(&[("state", "off"), ("x", "y"), ("state", "run")])), Some(true));
    assert_eq!(requested_state(&pairs(&[("State", "on")])), None);
}

#[test]
fn root_with_state_switches_and_redirects() {
    let response = root_response(&pairs(&[("state", "on")]));
    assert_eq!(response.commands, vec![BrainCmd::State(true)]);
    assert_eq!(response.reply, Reply::Redirect);
    let response = root_response(&pairs(&[("state", "bogus")]));
    assert_eq!(response.commands, vec![BrainCmd::State(false)]);
    assert_eq!(response.reply, Reply::Redirect);
}

#[test]
fn root_without_state_serves_the_page() {
    let response = root_response(&pairs(&[("other", "on")]));
    assert_eq!(response.commands, vec![]);
    assert_eq!(response.reply, Reply::Page);
}

#[test]
fn brain_request_defaults_to_off() {
    let response = brain_response(&pairs(&[]));
    assert_eq!(response.commands, vec![BrainCmd::State(false)]);
    assert_eq!(response.reply, Reply::Empty);
    let response = brain_response(&pairs(&[("state", "running")]));
    assert_eq!(response.commands, vec![BrainCmd::State(true)]);
}

#[test]
fn noting_one_pair() {
    assert_eq!(note(SILENT, "move", "stop", None), Some(DriveQuery { stop: true, ..SILENT }));
    assert_eq!(note(SILENT, "rotate", "stop", None), Some(DriveQuery { stop: true, ..SILENT }));
    assert_eq!(
        note(SILENT, "move", "12", Some(12)),
        Some(DriveQuery { move_value: Some(12), ..SILENT })
    );
    assert_eq!(
        note(SILENT, "rotate", "-90", Some(-90)),
        Some(DriveQuery { rotate_value: Some(-90), ..SILENT })
    );
    assert_eq!(note(SILENT, "move", "far", None), None);
    assert_eq!(note(SILENT, "rotate", "", None), None);
    assert_eq!(note(SILENT, "left", "", None), Some(DriveQuery { left: true, ..SILENT }));
    assert_eq!(note(SILENT, "right", "x", Some(3)), Some(DriveQuery { right: true, ..SILENT }));
    assert_eq!(note(SILENT, "speed", "3", Some(3)), Some(SILENT));
}

#[test]
fn reading_a_drive_query() {
    let query = read_drive_query(&pairs(&[("move", "100"), ("left", ""), ("move", "-250")]));
    assert_eq!(query.unwrap(), DriveQuery { move_value: Some(-250), left: true, ..SILENT });
    let query = read_drive_query(&pairs(&[("rotate", "+90"), ("right", "1"), ("move", "stop")]));
    assert_eq!(
        query.unwrap(),
        DriveQuery { rotate_value: Some(90), right: true, stop: true, ..SILENT }
    );
    assert_eq!(read_drive_query(&pairs(&[])).unwrap(), SILENT);
    assert_eq!(read_drive_query(&pairs(&[("left", "abc"), ("x", "y")])).unwrap().left, true);
}

#[test]
fn a_value_that_is_no_number_fails_the_query() {
    for bad in [
        "", "ten", "1.5", " 7", "7 ", "9223372036854775808", "-9223372036854775809", "0x10", "--1",
        "+", "-", "+-1", "1_000", "\u{663}", "12a",
    ] {
        assert!(read_drive_query(&pairs(&[("move", bad)])).is_err());
        assert!(read_drive_query(&pairs(&[("rotate", bad), ("move", "stop")])).is_err());
        assert!(read_drive_query(&pairs(&[("move", "1"), ("move", bad), ("move", "2")])).is_err());
    }
    assert_eq!(
        read_drive_query(&pairs(&[("move", "9223372036854775807")])).unwrap().move_value,
        Some(i64::MAX)
    );
    assert_eq!(
        read_drive_query(&pairs(&[("rotate", "-9223372036854775808")])).unwrap().rotate_value,
        Some(i64::MIN)
    );
}

#[test]
fn planning_a_drive_request() {
    let plan = |query: DriveQuery| {
        let response = plan_drive(&query);
        (response.commands, response.reply)
    };
    let done = Reply::Line(Message::Done);
    assert_eq!(plan(SILENT), (vec![], done));
    assert_eq!(
        plan(DriveQuery { stop: true, move_value: Some(5), rotate_value: Some(6), ..SILENT }),
        (vec![BrainCmd::Move(0)], done)
    );
    assert_eq!(
        plan(DriveQuery { move_value: Some(5), rotate_value: Some(6), ..SILENT }),
        (vec![], Reply::Line(Message::Conflict))
    );
    assert_eq!(plan(DriveQuery { move_value: Some(5), ..SILENT }), (vec![BrainCmd::Move(5)], done));
    assert_eq!(
        plan(DriveQuery { move_value: Some(5), left: true, ..SILENT }),
        (vec![BrainCmd::Left(5)], done)
    );
    assert_eq!(
        plan(DriveQuery { move_value: Some(5), right: true, ..SILENT }),
        (vec![BrainCmd::Right(5)], done)
    );
    assert_eq!(
        plan(DriveQuery { move_value: Some(5), left: true, right: true, ..SILENT }),
        (vec![BrainCmd::Left(5), BrainCmd::Right(5)], done)
    );
    assert_eq!(
        plan(DriveQuery { rotate_value: Some(-90), left: true, ..SILENT }),
        (vec![BrainCmd::Rotate(-90)], done)
    );
    assert_eq!(plan(DriveQuery { left: true, right: true, ..SILENT }), (vec![], done));
}

#[test]
fn message_texts() {
    assert_eq!(Message::Done.text(), "OK");
    assert_eq!(Message::Conflict.text(), "Can't move and rotate at the same time!");
}

#[test]
fn handle_root_reads_the_query_of_the_uri() {
    let response = handle_root("/?state=on").unwrap();
    assert_eq!(response.commands, vec![BrainCmd::State(true)]);
    assert_eq!(response.reply, Reply::Redirect);
    let response = handle_root("/?state=off").unwrap();
    assert_eq!(response.commands, vec![BrainCmd::State(false)]);
    let response = handle_root("/").unwrap();
    assert_eq!(response.commands, vec![]);
    assert_eq!(response.reply, Reply::Page);
    let response = handle_root("/?state=on#state=off").unwrap();
    assert_eq!(response.commands, vec![BrainCmd::State(true)]);
}

#[test]
fn handle_brain_reads_the_query_of_the_uri() {
    let response = handle_brain("/brain?state=run").unwrap();
    assert_eq!(response.commands, vec![BrainCmd::State(true)]);
    assert_eq!(response.reply, Reply::Empty);
    let response = handle_brain("/brain?st%61te=tr%75e").unwrap();
    assert_eq!(response.commands, vec![BrainCmd::State(true)]);
    let response = handle_brain("/brain").unwrap();
    assert_eq!(response.commands, vec![BrainCmd::State(false)]);
    let response = handle_brain("/brain?state=o+n").unwrap();
    assert_eq!(response.commands, vec![BrainCmd::State(false)]);
}

#[test]
fn handle_drive_reads_the_query_of_the_uri() {
    let response = handle_drive("/drive?move=250").unwrap();
    assert_eq!(response.commands, vec![BrainCmd::Move(250)]);
    assert_eq!(response.reply, Reply::Line(Message::Done));
    let response = handle_drive("/drive?rotate=-90").unwrap();
    assert_eq!(response.commands, vec![BrainCmd::Rotate(-90)]);
    let response = handle_drive("/drive?move=100&left=1&right=1").unwrap();
    assert_eq!(response.commands, vec![BrainCmd::Left(100), BrainCmd::Right(100)]);
    let response = handle_drive("/drive?move=100&rotate=5").unwrap();
    assert_eq!(response.commands, vec![]);
    assert_eq!(response.reply, Reply::Line(Message::Conflict));
    let response = handle_drive("/drive?move=100&rotate=stop").unwrap();
    assert_eq!(response.commands, vec![BrainCmd::Move(0)]);
    let response = handle_drive("/drive?&&move=%2D7&").unwrap();
    assert_eq!(response.commands, vec![BrainCmd::Move(-7)]);
    let response = handle_drive("drive").unwrap();
    assert_eq!(response.commands, vec![]);
}

#[test]
fn handle_drive_fails_on_a_bad_number() {
    assert!(matches!(handle_drive("/drive?move=fast"), Err(HttpError::Number(_))));
    assert!(matches!(handle_drive("/drive?rotate=1e3"), Err(HttpError::Number(_))));
    assert!(matches!(handle_drive("/drive?move=1+2"), Err(HttpError::Number(_))));
}

#[test]
fn a_uri_that_does_not_parse_is_an_error() {
    assert!(matches!(handle_drive("http://[::1"), Err(HttpError::Uri(_))));
    assert!(matches!(handle_root("http://host:port/"), Err(HttpError::Uri(_))));
    assert!(matches!(handle_brain("//[/brain?state=on"), Err(HttpError::Uri(_))));
}

#[test]
fn numbers_are_an_optional_sign_and_decimal_digits() {
    for (text, number) in [
        ("0", 0i64),
        ("-0", 0),
        ("+0", 0),
        ("007", 7),
        ("-007", -7),
        ("+42", 42),
        ("000000000000000000000000000000123", 123),
        ("9223372036854775807", i64::MAX),
        ("-9223372036854775808", i64::MIN),
    ] {
        let query = read_drive_query(&pairs(&[("move", text)])).unwrap();
        assert_eq!(query.move_value, Some(number));
        let query = read_drive_query(&pairs(&[("rotate", text)])).unwrap();
        assert_eq!(query.rotate_value, Some(number));
    }
}

#[test]
fn the_uri_is_read_against_the_local_base() {
    assert_eq!(BASE, "http://localhost");
    let response = handle_drive("?move=5").unwrap();
    assert_eq!(response.commands, vec![BrainCmd::Move(5)]);
    let response = handle_drive("http://elsewhere/drive?rotate=5").unwrap();
    assert_eq!(response.commands, vec![BrainCmd::Rotate(5)]);
}
