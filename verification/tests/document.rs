use serde_json::Value;
use todo_list::document::DocumentError;
use todo_list::task::{Task, TodoList};

fn sample() -> TodoList {
    let mut list = TodoList::new();
    list.add_task("Buy milk".to_string());
    list.add_task("Walk dog".to_string());
    list.toggle_task(0);
    list
}

fn task_object(description: &str, completed: bool) -> Value {
    let mut map = serde_json::Map::new();
    map.insert("description".to_string(), Value::String(description.to_string()));
    map.insert("completed".to_string(), Value::Bool(completed));
    Value::Object(map)
}

fn document_object(tasks: Vec<Value>) -> Value {
    let mut map = serde_json::Map::new();
    map.insert("tasks".to_string(), Value::Array(tasks));
    Value::Object(map)
}

#[test]
fn document_text_of_two_tasks() {
    let text = sample().to_json().unwrap();
    assert_eq!(
        text,
        "{\"tasks\":[{\"description\":\"Buy milk\",\"completed\":true},{\"description\":\"Walk dog\",\"completed\":false}]}"
    );
}

#[test]
fn document_text_of_an_empty_list() {
    assert_eq!(TodoList::new().to_json().unwrap(), "{\"tasks\":[]}");
}

#[test]
fn document_text_escapes_the_description() {
    let mut list = TodoList::new();
    list.add_task("say \"hi\"\\\n".to_string());
    assert_eq!(
        list.to_json().unwrap(),
        "{\"tasks\":[{\"description\":\"say \\\"hi\\\"\\\\\\n\",\"completed\":false}]}"
    );
}

#[test]
fn task_value_is_an_object_of_two_members() {
    let task = Task { description: "Walk dog".to_string(), completed: true };
    let value = task.to_value();
    assert_eq!(value, task_object("Walk dog", true));
    let keys: Vec<&String> = value.as_object().unwrap().keys().collect();
    assert_eq!(keys, vec!["description", "completed"]);
}

#[test]
fn list_value_is_an_object_with_the_tasks() {
    let value = sample().to_value();
    assert_eq!(
        value,
        document_object(vec![task_object("Buy milk", true), task_object("Walk dog", false)])
    );
    assert_eq!(TodoList::new().to_value(), document_object(vec![]));
}

#[test]
fn task_is_read_from_its_object() {
    let task = Task::from_value(&task_object("Buy milk", true)).unwrap();
    assert_eq!(task, Task { description: "Buy milk".to_string(), completed: true });
    let task = Task::from_value(&task_object("", false)).unwrap();
    assert_eq!(task, Task { description: String::new(), completed: false });
}

#[test]
fn task_is_read_whatever_the_order_of_members() {
    let mut map = serde_json::Map::new();
    map.insert("completed".to_string(), Value::Bool(true));
    map.insert("note".to_string(), Value::Null);
    map.insert("description".to_string(), Value::String("a".to_string()));
    let task = Task::from_value(&Value::Object(map)).unwrap();
    assert_eq!(task, Task { description: "a".to_string(), completed: true });
}

#[test]
fn task_is_not_read_from_another_shape() {
    assert_eq!(Task::from_value(&Value::Null), None);
    assert_eq!(Task::from_value(&Value::Bool(true)), None);
    assert_eq!(Task::from_value(&Value::String("a".to_string())), None);
    assert_eq!(Task::from_value(&Value::Array(vec![])), None);
    assert_eq!(Task::from_value(&Value::Object(serde_json::Map::new())), None);

    let mut no_flag = serde_json::Map::new();
    no_flag.insert("description".to_string(), Value::String("a".to_string()));
    assert_eq!(Task::from_value(&Value::Object(no_flag)), None);

    let mut no_description = serde_json::Map::new();
    no_description.insert("completed".to_string(), Value::Bool(false));
    assert_eq!(Task::from_value(&Value::Object(no_description)), None);

    let mut wrong_description = serde_json::Map::new();
    wrong_description.insert("description".to_string(), Value::Bool(false));
    wrong_description.insert("completed".to_string(), Value::Bool(false));
    assert_eq!(Task::from_value(&Value::Object(wrong_description)), None);

    let mut wrong_flag = serde_json::Map::new();
    wrong_flag.insert("description".to_string(), Value::String("a".to_string()));
    wrong_flag.insert("completed".to_string(), Value::String("false".to_string()));
    assert_eq!(Task::from_value(&Value::Object(wrong_flag)), None);

    let mut null_flag = serde_json::Map::new();
    null_flag.insert("description".to_string(), Value::String("a".to_string()));
    null_flag.insert("completed".to_string(), Value::Null);
    assert_eq!(Task::from_value(&Value::Object(null_flag)), None);
}

#[test]
fn list_is_read_from_its_object() {
    let value = document_object(vec![task_object("Buy milk", true), task_object("Walk dog", false)]);
    assert_eq!(TodoList::from_value(&value), Some(sample()));
    assert_eq!(TodoList::from_value(&document_object(vec![])), Some(TodoList::new()));
}

#[test]
fn list_is_not_read_from_another_shape() {
    assert_eq!(TodoList::from_value(&Value::Null), None);
    assert_eq!(TodoList::from_value(&Value::Array(vec![])), None);
    assert_eq!(TodoList::from_value(&Value::Object(serde_json::Map::new())), None);
    assert_eq!(TodoList::from_value(&task_object("a", false)), None);

    let mut not_an_array = serde_json::Map::new();
    not_an_array.insert("tasks".to_string(), task_object("a", false));
    assert_eq!(TodoList::from_value(&Value::Object(not_an_array)), None);

    let one_bad = document_object(vec![task_object("a", false), Value::Null, task_object("b", true)]);
    assert_eq!(TodoList::from_value(&one_bad), None);

    let last_bad = document_object(vec![task_object("a", false), Value::Bool(true)]);
    assert_eq!(TodoList::from_value(&last_bad), None);
}

#[test]
fn value_round_trip() {
    let list = sample();
    assert_eq!(TodoList::from_value(&list.to_value()), Some(list));
    let empty = TodoList::new();
    assert_eq!(TodoList::from_value(&empty.to_value()), Some(empty));
    let task = Task { description: "x".to_string(), completed: true };
    assert_eq!(Task::from_value(&task.to_value()), Some(task));
}

#[test]
fn text_round_trip() {
    let list = sample();
    let text = list.to_json().unwrap();
    assert_eq!(TodoList::from_json(&text), Ok(list));
}

#[test]
fn text_round_trip_of_an_empty_list() {
    let text = TodoList::new().to_json().unwrap();
    assert_eq!(TodoList::from_json(&text), Ok(TodoList::new()));
}

#[test]
fn text_round_trip_of_awkward_descriptions() {
    let mut list = TodoList::new();
    for d in [
        "", " ", "\"", "\\", "\\\"", "a\nb", "tab\there", "\u{0}\u{1}\u{1f}", "{\"tasks\":[]}",
        "caf\u{e9}", "\u{1f600}", "\u{2028}\u{2029}", "description", "completed", "same", "same",
    ] {
        list.add_task(d.to_string());
    }
    list.toggle_task(1);
    list.toggle_task(4);
    list.toggle_task(15);
    let text = list.to_json().unwrap();
    let back = TodoList::from_json(&text).unwrap();
    assert_eq!(back, list);
    assert_eq!(back.to_json().unwrap(), text);
}

#[test]
fn text_is_read_with_white_space_and_other_members() {
    let text = " {\n  \"version\": 2,\n  \"tasks\": [\n    { \"completed\": true, \"description\": \"a\", \"due\": [1, 2.5e3, null] }\n  ]\n}\n";
    let list = TodoList::from_json(text).unwrap();
    assert_eq!(list.list().len(), 1);
    assert_eq!(list.list()[0], Task { description: "a".to_string(), completed: true });
}

#[test]
fn text_that_is_no_json_is_malformed() {
    for text in ["not json", "", "   ", "{", "{\"tasks\":[}", "{\"tasks\":[]} x", "{'tasks':[]}", "{\"tasks\":[],}"] {
        assert_eq!(TodoList::from_json(text), Err(DocumentError::Malformed), "on {:?}", text);
    }
}

#[test]
fn json_of_another_shape_is_refused() {
    for text in [
        "null",
        "3",
        "\"tasks\"",
        "[]",
        "{}",
        "{\"tasks\":null}",
        "{\"tasks\":{}}",
        "{\"tasks\":\"\"}",
        "{\"Tasks\":[]}",
        "{\"tasks\":[1]}",
        "{\"tasks\":[{}]}",
        "{\"tasks\":[{\"description\":\"a\"}]}",
        "{\"tasks\":[{\"completed\":true}]}",
        "{\"tasks\":[{\"description\":\"a\",\"completed\":1}]}",
        "{\"tasks\":[{\"description\":null,\"completed\":true}]}",
        "{\"tasks\":[{\"description\":\"a\",\"completed\":true},{\"description\":\"b\"}]}",
        "[{\"description\":\"a\",\"completed\":true}]",
    ] {
        assert_eq!(TodoList::from_json(text), Err(DocumentError::WrongShape), "on {:?}", text);
    }
}

#[test]
fn restore_without_a_document_is_empty() {
    assert_eq!(TodoList::restore(None), TodoList::new());
}

#[test]
fn restore_from_what_is_no_json_is_empty() {
    assert_eq!(TodoList::restore(Some("not json")), TodoList::new());
}

#[test]
fn restore_from_another_shape_is_empty() {
    assert_eq!(TodoList::restore(Some("{}")), TodoList::new());
    assert_eq!(TodoList::restore(Some("[1,2]")), TodoList::new());
    assert_eq!(TodoList::restore(Some("{\"tasks\":[{\"description\":\"a\"}]}")), TodoList::new());
}

#[test]
fn restore_from_a_document_gives_its_tasks() {
    let text = sample().to_json().unwrap();
    assert_eq!(TodoList::restore(Some(&text)), sample());
}
