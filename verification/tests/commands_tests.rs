use caldash::commands::{parse_command, Command};

#[test]
fn todo_command_appends_an_item() {
    match parse_command("todo, true, Buy milk") {
        Command::AddTodo(t) => {
            assert!(t.high_prio);
            assert_eq!(t.todo_name, "Buy milk");
        }
        _ => panic!("expected a to-do command"),
    }
}

#[test]
fn todo_command_is_case_insensitive_and_trimmed() {
    match parse_command("  TODO ,false,   Spaced name  ") {
        Command::AddTodo(t) => {
            assert!(!t.high_prio);
            assert_eq!(t.todo_name, "Spaced name");
        }
        _ => panic!("expected a to-do command"),
    }
}

#[test]
fn one_field_input_is_a_no_op() {
    assert!(matches!(parse_command("bad input"), Command::Ignore));
}

#[test]
fn short_or_unrecognized_input_is_ignored() {
    assert!(matches!(parse_command(""), Command::Ignore));
    assert!(matches!(parse_command("todo, true"), Command::Ignore));
    assert!(matches!(parse_command("note, true, X"), Command::Ignore));
}

#[test]
fn unreadable_priority_flag_is_ignored() {
    assert!(matches!(parse_command("todo, maybe, X"), Command::Ignore));
    assert!(matches!(parse_command("todo, True, X"), Command::Ignore));
}

#[test]
fn app_command_appends_an_event() {
    match parse_command("app, 2024-03-10 12:30:00, Dentist, Clinic") {
        Command::AddEvent(e) => {
            assert_eq!(
                (e.date.date.year, e.date.date.month, e.date.date.day),
                (2024, 3, 10)
            );
            assert_eq!((e.date.hour, e.date.minute, e.date.second), (12, 30, 0));
            assert_eq!(e.event_name, "Dentist");
            assert_eq!(e.location, "Clinic");
        }
        _ => panic!("expected an appointment command"),
    }
}

#[test]
fn app_token_matches_by_containment() {
    match parse_command("Appointment, 2024-03-10T07:05:09, Standup, Office") {
        Command::AddEvent(e) => {
            assert_eq!((e.date.hour, e.date.minute, e.date.second), (7, 5, 9));
            assert_eq!(e.event_name, "Standup");
        }
        _ => panic!("expected an appointment command"),
    }
}

#[test]
fn app_command_with_a_bad_date_is_ignored() {
    assert!(matches!(
        parse_command("app, 2024-13-10 12:30:00, A, B"),
        Command::Ignore
    ));
    assert!(matches!(
        parse_command("app, 2023-02-29 12:30:00, A, B"),
        Command::Ignore
    ));
    assert!(matches!(
        parse_command("app, tomorrow, A, B"),
        Command::Ignore
    ));
}

#[test]
fn app_command_missing_its_location_is_ignored() {
    assert!(matches!(
        parse_command("app, 2024-03-10 12:30:00, OnlyName"),
        Command::Ignore
    ));
}
