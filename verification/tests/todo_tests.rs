use caldash::todo::{ToDo, ToDoList};

fn sample_list() -> ToDoList {
    let mut list = ToDoList::new();
    list.add_todo_to_list(ToDo::new(true, "Ship release".to_string()));
    list.add_todo_to_list(ToDo::new(false, "Clean desk".to_string()));
    list.add_todo_to_list(ToDo::new(true, "Fix bug".to_string()));
    list
}

#[test]
fn partition_keeps_insertion_order_within_each_priority() {
    let list = sample_list();
    let sorted = list.get_todos_sorted_by_prio();
    assert_eq!(sorted.len(), 2);
    let high: Vec<&str> = sorted[0].iter().map(|t| t.todo_name.as_str()).collect();
    let low: Vec<&str> = sorted[1].iter().map(|t| t.todo_name.as_str()).collect();
    assert_eq!(high, vec!["Ship release", "Fix bug"]);
    assert_eq!(low, vec!["Clean desk"]);
    assert!(sorted[0].iter().all(|t| t.high_prio));
    assert!(sorted[1].iter().all(|t| !t.high_prio));
}

#[test]
fn list_accessors_report_what_was_added() {
    let list = sample_list();
    let items = list.get_all_todo_items();
    assert_eq!(items.len(), 3);
    assert_eq!(items[0].todo_name, "Ship release");
    assert_eq!(items[1].todo_name, "Clean desk");
    assert_eq!(items[2].todo_name, "Fix bug");
}

#[test]
fn todo_text_shows_both_partitions() {
    let list = sample_list();
    let text = list.generate_todo_text();
    assert_eq!(
        text,
        "High Priority:  2\nShip release\nFix bug\n\nLow Priority:  1\nClean desk\n"
    );
}

#[test]
fn todo_text_omits_an_empty_partition() {
    let mut list = ToDoList::new();
    list.add_todo_to_list(ToDo::new(true, "Only urgent".to_string()));
    assert_eq!(list.generate_todo_text(), "High Priority:  1\nOnly urgent\n\n");

    let mut list = ToDoList::new();
    list.add_todo_to_list(ToDo::new(false, "Only later".to_string()));
    assert_eq!(list.generate_todo_text(), "Low Priority:  1\nOnly later\n");
}

#[test]
fn todo_text_names_an_empty_list() {
    let list = ToDoList::new();
    assert_eq!(list.generate_todo_text(), "You do not have any to-do items!");
}
