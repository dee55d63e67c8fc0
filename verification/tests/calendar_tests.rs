use caldash::calendar::{Calendar, Events};
use caldash::dates::{Date, DateTime};

fn dt(y: u32, m: u32, d: u32, h: u32, mi: u32, s: u32) -> DateTime {
    DateTime::new(Date::new(y, m, d).unwrap(), h, mi, s).unwrap()
}

fn sample_calendar() -> Calendar {
    let mut cal = Calendar::new(dt(2024, 3, 10, 0, 0, 0));
    cal.add_event_to_calendar(Events::new(
        dt(2024, 3, 10, 9, 30, 0),
        "Dentist".to_string(),
        "Clinic".to_string(),
    ));
    cal.add_event_to_calendar(Events::new(
        dt(2024, 4, 10, 9, 0, 0),
        "Same day other month".to_string(),
        "Elsewhere".to_string(),
    ));
    cal.add_event_to_calendar(Events::new(
        dt(2023, 3, 10, 9, 0, 0),
        "Same day other year".to_string(),
        "Elsewhere".to_string(),
    ));
    cal.add_event_to_calendar(Events::new(
        dt(2024, 3, 10, 12, 15, 0),
        "Lunch".to_string(),
        "Cafe".to_string(),
    ));
    cal
}

#[test]
fn day_lookup_keeps_insertion_order_and_excludes_other_days() {
    let cal = sample_calendar();
    // The query's own time of day is ignored for matching.
    let found = cal.get_event_from_calendar(dt(2024, 3, 10, 23, 59, 59));
    assert_eq!(found.len(), 2);
    assert_eq!(found[0].event_name, "Dentist");
    assert_eq!(found[0].location, "Clinic");
    assert_eq!(found[1].event_name, "Lunch");
    assert_eq!(found[1].location, "Cafe");

    let none = cal.get_event_from_calendar(dt(2024, 3, 11, 0, 0, 0));
    assert_eq!(none.len(), 0);
}

#[test]
fn store_accessors_report_what_was_added() {
    let cal = sample_calendar();
    assert_eq!(cal.get_all_events_from_calendar().len(), 4);
    let d = cal.get_current_date();
    assert_eq!((d.date.year, d.date.month, d.date.day), (2024, 3, 10));
    assert_eq!(cal.get_day_count(), 31);

    let feb = Calendar::new(dt(2024, 2, 5, 0, 0, 0));
    assert_eq!(feb.get_day_count(), 29);
}

#[test]
fn month_table_matches_the_grid() {
    let cal = sample_calendar();
    let table = cal.get_month_table(&dt(2024, 3, 1, 0, 0, 0));
    assert_eq!(table[0], vec![0, 0, 0, 0, 0, 1, 2]);
    assert_eq!(table[5], vec![31, 0, 0, 0, 0, 0, 0]);
}

#[test]
fn calendar_text_lays_out_march_2024() {
    let cal = sample_calendar();
    let text = cal.generate_calendar_text(&dt(2024, 3, 10, 0, 0, 0));
    let blank = "\u{00A0}  ";
    let mut expected = String::from("Su Mo Tu We Th Fr Sa \n");
    expected.push_str(&blank.repeat(5));
    expected.push_str("1  2  \n");
    expected.push_str("3  4  5  6  7  8  9  \n");
    expected.push_str("10 11 12 13 14 15 16 \n");
    expected.push_str("17 18 19 20 21 22 23 \n");
    expected.push_str("24 25 26 27 28 29 30 \n");
    expected.push_str("31 ");
    expected.push_str(&blank.repeat(6));
    expected.push('\n');
    assert_eq!(text, expected);
}

#[test]
fn appointment_text_lists_matches_in_order() {
    let cal = sample_calendar();
    let text = cal.generate_appointment_text(dt(2024, 3, 10, 0, 0, 0));
    let expected = "Event: Dentist\nLocation: Clinic\nTime: 09:30:00\n\n\
                    Event: Lunch\nLocation: Cafe\nTime: 12:15:00\n\n";
    assert_eq!(text, expected);
}

#[test]
fn appointment_text_names_an_empty_day() {
    let cal = sample_calendar();
    let text = cal.generate_appointment_text(dt(2024, 3, 11, 8, 0, 0));
    assert_eq!(text, "You do not have any appointments for 2024-03-11");
}

#[test]
fn appointment_lines_pad_to_eight_columns() {
    let mut cal = Calendar::new(dt(2024, 3, 10, 0, 0, 0));
    cal.add_event_to_calendar(Events::new(
        dt(2024, 3, 10, 0, 0, 0),
        String::new(),
        String::new(),
    ));
    let text = cal.generate_appointment_text(dt(2024, 3, 10, 0, 0, 0));
    // "Event: " is seven characters, so the empty name pads to eight;
    // "Location: " and the time line already reach the width.
    assert_eq!(text, "Event:  \nLocation: \nTime: 00:00:00\n\n");
}
