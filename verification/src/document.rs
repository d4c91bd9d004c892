//! The persisted document: a to-do list as one JSON object,
//! `{"tasks":[{"description":..,"completed":..},..]}`.

use crate::json::{
    array, boolean, characters, elements, flag, lookup, member, members_of, object, parse, parsed,
    render, rendered, string, tree_of, trees_of, JsonTree,
};
use crate::task::{Task, TaskView, TodoList};
use serde_json::Value;
use vstd::prelude::*;
use vstd::string::*;

verus! {

/// Why a document could not be read or written.
#[derive(Debug, Clone, Copy, PartialEq, Eq)]
pub enum DocumentError {
    /// The text is not one well-formed JSON value.
    Malformed,
    /// The text is JSON, but not a list of tasks in the expected shape.
    WrongShape,
    /// The list could not be written as JSON text.
    Unwritable,
}

/// The JSON object that stands for a task: its description, then its flag.
pub open spec fn task_tree(task: TaskView) -> JsonTree {
    JsonTree::Object(
        seq![
            ("description"@, JsonTree::Text(task.description)),
            ("completed"@, JsonTree::Bool(task.completed)),
        ],
    )
}

/// The JSON object that stands for a list: one member, `tasks`, the array of
/// its tasks in order.
pub open spec fn document_tree(tasks: Seq<TaskView>) -> JsonTree {
    JsonTree::Object(seq![("tasks"@, JsonTree::List(tasks.map_values(|t: TaskView| task_tree(t))))])
}

/// The task that a JSON value stands for: an object whose member
/// `description` is a string and whose member `completed` is `true` or
/// `false`. Other members are passed over; any other value stands for none.
pub open spec fn task_of(tree: JsonTree) -> Option<TaskView> {
    match (tree.member("description"@), tree.member("completed"@)) {
        (Some(JsonTree::Text(description)), Some(JsonTree::Bool(completed))) => Some(
            TaskView { description, completed },
        ),
        _ => None,
    }
}

/// Whether every one of the trees stands for a task.
pub open spec fn all_tasks(items: Seq<JsonTree>) -> bool {
    forall|i: int| 0 <= i < items.len() ==> (#[trigger] task_of(items[i])) is Some
}

/// The list that a JSON value stands for: an object whose member `tasks` is
/// an array of values that each stand for a task. Other members are passed
/// over; any other value stands for none.
pub open spec fn tasks_of(tree: JsonTree) -> Option<Seq<TaskView>> {
    match tree.member("tasks"@) {
        Some(JsonTree::List(items)) => if all_tasks(items) {
            Some(items.map_values(|t: JsonTree| task_of(t)->0))
        } else {
            None
        },
        _ => None,
    }
}

/// What writing a list as a document gives: the text that `serde_json`
/// writes for the object that stands for the list, or `Unwritable` where it
/// writes none.
pub open spec fn text_of_list(tasks: Seq<TaskView>) -> Result<Seq<char>, DocumentError> {
    match rendered(document_tree(tasks)) {
        Some(text) => Ok(text),
        None => Err(DocumentError::Unwritable),
    }
}

/// What reading a document gives: the list that the text stands for,
/// `Malformed` where `serde_json` reads no JSON value from the text, and
/// `WrongShape` where the value it reads stands for no list.
pub open spec fn list_of_text(text: Seq<char>) -> Result<Seq<TaskView>, DocumentError> {
    match parsed(text) {
        Some(tree) => match tasks_of(tree) {
            Some(tasks) => Ok(tasks),
            None => Err(DocumentError::WrongShape),
        },
        None => Err(DocumentError::Malformed),
    }
}

/// The list to start a session with, given the document that an earlier one
/// left, if one was found: the list that it stands for, and no task where
/// none was found or it cannot be read.
pub open spec fn restored(contents: Option<Seq<char>>) -> Seq<TaskView> {
    match contents {
        Some(text) => match list_of_text(text) {
            Ok(tasks) => tasks,
            Err(_) => Seq::empty(),
        },
        None => Seq::empty(),
    }
}

impl Task {
    /// The task as a JSON object.
    pub fn to_value(&self) -> (value: Value)
        ensures
            tree_of(value) == task_tree(self@),
    {
        let mut entries: Vec<(String, Value)> = Vec::new();
        entries.push((String::from_str("description"), string(self.description.as_str())));
        entries.push((String::from_str("completed"), boolean(self.completed)));
        proof {
            reveal_strlit("description");
            reveal_strlit("completed");
            assert("description"@.len() != "completed"@.len());
        }
        assert(members_of(entries@) =~= seq![
            ("description"@, JsonTree::Text(self@.description)),
            ("completed"@, JsonTree::Bool(self@.completed)),
        ]);
        object(entries)
    }

    /// The task that a JSON value stands for, if it stands for one.
    pub fn from_value(value: &Value) -> (task: Option<Task>)
        ensures
            task_of(tree_of(*value)) == match task {
                Some(t) => Some(t@),
                None => None,
            },
    {
        let description = match member(value, "description") {
            Some(inner) => characters(inner),
            None => None,
        };
        let completed = match member(value, "completed") {
            Some(inner) => flag(inner),
            None => None,
        };
        match (description, completed) {
            (Some(d), Some(c)) => Some(Task { description: String::from_str(d), completed: c }),
            _ => None,
        }
    }
}

impl TodoList {
    /// The list as a JSON object.
    pub fn to_value(&self) -> (value: Value)
        ensures
            tree_of(value) == document_tree(self@),
    {
        let mut items: Vec<Value> = Vec::new();
        let mut i: usize = 0;
        while i < self.tasks.len()
            invariant
                i <= self.tasks.len(),
                items.len() == i,
                forall|j: int| 0 <= j < i ==> tree_of(#[trigger] items[j]) == task_tree(self@[j]),
            decreases self.tasks.len() - i,
        {
            items.push(self.tasks[i].to_value());
            i += 1;
        }
        assert(trees_of(items@) =~= self@.map_values(|t: TaskView| task_tree(t)));
        let mut entries: Vec<(String, Value)> = Vec::new();
        entries.push((String::from_str("tasks"), array(items)));
        assert(members_of(entries@) =~= seq![
            ("tasks"@, JsonTree::List(self@.map_values(|t: TaskView| task_tree(t)))),
        ]);
        object(entries)
    }

    /// The list that a JSON value stands for, if it stands for one.
    pub fn from_value(value: &Value) -> (list: Option<TodoList>)
        ensures
            tasks_of(tree_of(*value)) == match list {
                Some(l) => Some(l@),
                None => None,
            },
    {
        let items = match member(value, "tasks") {
            Some(inner) => match elements(inner) {
                Some(items) => items,
                None => { return None; },
            },
            None => { return None; },
        };
        let ghost trees = trees_of(items@);
        assert(tree_of(*value).member("tasks"@) == Some(JsonTree::List(trees)));
        let mut tasks: Vec<Task> = Vec::new();
        let mut i: usize = 0;
        while i < items.len()
            invariant
                i <= items.len(),
                tasks.len() == i,
                trees == trees_of(items@),
                tree_of(*value).member("tasks"@) == Some(JsonTree::List(trees)),
                forall|j: int| 0 <= j < i ==> (#[trigger] task_of(trees[j])) == Some(tasks[j]@),
            decreases items.len() - i,
        {
            assert(trees[i as int] == tree_of(items[i as int]));
            match Task::from_value(&items[i]) {
                Some(task) => {
                    tasks.push(task);
                },
                None => {
                    assert(task_of(trees[i as int]) is None);
                    assert(!all_tasks(trees));
                    return None;
                },
            }
            i += 1;
        }
        let list = TodoList { tasks };
        assert(all_tasks(trees));
        assert(list@ =~= trees.map_values(|t: JsonTree| task_of(t)->0));
        Some(list)
    }

    /// Writes the list as a JSON document.
    ///
    /// Succeeds exactly where `serde_json` writes the object that stands for
    /// the list, and then returns its text.
    pub fn to_json(&self) -> (outcome: Result<String, DocumentError>)
        ensures
            text_of_list(self@) == match outcome {
                Ok(text) => Ok(text@),
                Err(e) => Err(e),
            },
    {
        let value = self.to_value();
        match render(&value) {
            Ok(text) => Ok(text),
            Err(_) => Err(DocumentError::Unwritable),
        }
    }

    /// Reads a list from a JSON document.
    ///
    /// Fails with `Malformed` exactly where `serde_json` does not read the
    /// text as a JSON value, and with `WrongShape` exactly where it does and
    /// the value stands for no list.
    pub fn from_json(text: &str) -> (outcome: Result<TodoList, DocumentError>)
        ensures
            list_of_text(text@) == match outcome {
                Ok(list) => Ok(list@),
                Err(e) => Err(e),
            },
    {
        match parse(text) {
            Ok(value) => match TodoList::from_value(&value) {
                Some(list) => Ok(list),
                None => Err(DocumentError::WrongShape),
            },
            Err(_) => Err(DocumentError::Malformed),
        }
    }

    /// The list to start a session with: the one that the document stands
    /// for, or an empty list where no document was found or it cannot be
    /// read.
    pub fn restore(contents: Option<&str>) -> (list: TodoList)
        ensures
            list@ == restored(
                match contents {
                    Some(text) => Some(text@),
                    None => None,
                },
            ),
    {
        match contents {
            Some(text) => match TodoList::from_json(text) {
                Ok(list) => list,
                Err(_) => TodoList::new(),
            },
            None => TodoList::new(),
        }
    }
}

/// Reading back the object that stands for a task gives that task.
pub proof fn lemma_task_round_trip(task: TaskView)
    ensures
        task_of(task_tree(task)) == Some(task),
{
    reveal_strlit("description");
    reveal_strlit("completed");
    let members = seq![
        ("description"@, JsonTree::Text(task.description)),
        ("completed"@, JsonTree::Bool(task.completed)),
    ];
    assert("description"@.len() != "completed"@.len());
    reveal_with_fuel(lookup, 3);
    assert(members.drop_first().first() == ("completed"@, JsonTree::Bool(task.completed)));
}

/// Reading back the object that stands for a list gives that list: the same
/// tasks in the same order, each with its description and its flag.
pub proof fn lemma_document_round_trip(tasks: Seq<TaskView>)
    ensures
        tasks_of(document_tree(tasks)) == Some(tasks),
{
    let items = tasks.map_values(|t: TaskView| task_tree(t));
    let members = seq![("tasks"@, JsonTree::List(items))];
    reveal_with_fuel(lookup, 2);
    assert(members.first() == ("tasks"@, JsonTree::List(items)));
    assert forall|i: int| 0 <= i < items.len() implies (#[trigger] task_of(items[i])) == Some(
        tasks[i],
    ) by {
        lemma_task_round_trip(tasks[i]);
    }
    assert(items.map_values(|t: JsonTree| task_of(t)->0) =~= tasks);
}

} // verus!
