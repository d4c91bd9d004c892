use todo_list::task::{Task, TodoList};

#[test]
fn line_shows_position_mark_and_description() {
    let open = Task { description: "Walk dog".to_string(), completed: false };
    let done = Task { description: "Buy milk".to_string(), completed: true };
    assert_eq!(open.line(2), "2. [ ] Walk dog");
    assert_eq!(done.line(1), "1. [x] Buy milk");
    assert_eq!(done.line(120), "120. [x] Buy milk");
}

#[test]
fn line_of_an_empty_description() {
    let task = Task { description: String::new(), completed: false };
    assert_eq!(task.line(1), "1. [ ] ");
}

#[test]
fn lines_of_an_empty_list() {
    assert!(TodoList::new().lines().is_empty());
}

#[test]
fn lines_count_from_one() {
    let mut list = TodoList::new();
    for i in 0..12 {
        list.add_task(format!("t{}", i));
    }
    list.toggle_task(9);
    let lines = list.lines();
    assert_eq!(lines.len(), 12);
    assert_eq!(lines[0], "1. [ ] t0");
    assert_eq!(lines[8], "9. [ ] t8");
    assert_eq!(lines[9], "10. [x] t9");
    assert_eq!(lines[11], "12. [ ] t11");
}
