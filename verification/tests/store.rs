use todo_list::task::{Task, TodoList};

fn descriptions(list: &TodoList) -> Vec<String> {
    list.list().iter().map(|t| t.description.clone()).collect()
}

fn flags(list: &TodoList) -> Vec<bool> {
    list.list().iter().map(|t| t.completed).collect()
}

#[test]
fn new_list_is_empty() {
    let list = TodoList::new();
    assert_eq!(list.len(), 0);
    assert!(list.list().is_empty());
}

#[test]
fn add_task_appends_an_open_task() {
    let mut list = TodoList::new();
    list.add_task("Buy milk".to_string());
    assert_eq!(list.len(), 1);
    assert_eq!(
        list.list()[0],
        Task { description: "Buy milk".to_string(), completed: false }
    );
}

#[test]
fn tasks_are_listed_in_the_order_added() {
    let mut list = TodoList::new();
    let wanted = vec!["c", "a", "b", "a", ""];
    for d in &wanted {
        list.add_task(d.to_string());
    }
    assert_eq!(descriptions(&list), wanted);
    assert_eq!(flags(&list), vec![false; 5]);
}

#[test]
fn add_task_keeps_earlier_flags() {
    let mut list = TodoList::new();
    list.add_task("a".to_string());
    list.toggle_task(0);
    list.add_task("b".to_string());
    assert_eq!(flags(&list), vec![true, false]);
}

#[test]
fn empty_and_repeated_descriptions_are_taken() {
    let mut list = TodoList::new();
    list.add_task(String::new());
    list.add_task("same".to_string());
    list.add_task("same".to_string());
    assert_eq!(descriptions(&list), vec!["", "same", "same"]);
}

#[test]
fn toggle_flips_only_the_task_at_the_index() {
    let mut list = TodoList::new();
    list.add_task("a".to_string());
    list.add_task("b".to_string());
    list.add_task("c".to_string());
    list.toggle_task(1);
    assert_eq!(flags(&list), vec![false, true, false]);
    assert_eq!(descriptions(&list), vec!["a", "b", "c"]);
    list.toggle_task(2);
    assert_eq!(flags(&list), vec![false, true, true]);
    list.toggle_task(0);
    assert_eq!(flags(&list), vec![true, true, true]);
}

#[test]
fn toggle_twice_restores_the_flag() {
    let mut list = TodoList::new();
    list.add_task("a".to_string());
    list.add_task("b".to_string());
    list.toggle_task(1);
    let once = list.clone();
    list.toggle_task(0);
    list.toggle_task(0);
    assert_eq!(list, once);
    list.toggle_task(1);
    assert_eq!(flags(&list), vec![false, false]);
}

#[test]
fn toggle_out_of_range_changes_nothing() {
    let mut list = TodoList::new();
    list.toggle_task(0);
    assert_eq!(list, TodoList::new());
    list.add_task("a".to_string());
    list.add_task("b".to_string());
    list.toggle_task(0);
    let before = list.clone();
    list.toggle_task(2);
    assert_eq!(list, before);
    list.toggle_task(usize::MAX);
    assert_eq!(list, before);
}

#[test]
fn len_counts_the_tasks() {
    let mut list = TodoList::new();
    for i in 0..7 {
        assert_eq!(list.len(), i);
        list.add_task(format!("task {}", i));
    }
    list.toggle_task(3);
    assert_eq!(list.len(), 7);
}
