//! Tasks and the ordered store that holds them.

use vstd::prelude::*;

verus! {

/// A single to-do item.
#[derive(Debug, Clone, PartialEq, Eq)]
pub struct Task {
    pub description: String,
    pub completed: bool,
}

/// What a [`Task`] is, as a mathematical value.
pub struct TaskView {
    pub description: Seq<char>,
    pub completed: bool,
}

impl View for Task {
    type V = TaskView;

    open spec fn view(&self) -> TaskView {
        TaskView { description: self.description@, completed: self.completed }
    }
}

/// The tasks of one session, in the order in which they were added.
///
/// A task has no identity but its position; descriptions may repeat.
#[derive(Debug, Clone, PartialEq, Eq)]
pub struct TodoList {
    pub tasks: Vec<Task>,
}

impl View for TodoList {
    type V = Seq<TaskView>;

    open spec fn view(&self) -> Seq<TaskView> {
        self.tasks@.map_values(|t: Task| t@)
    }
}

/// The task that `add_task` creates for a description: not yet completed.
pub open spec fn fresh(description: Seq<char>) -> TaskView {
    TaskView { description, completed: false }
}

/// The list after a task with the given description was appended.
pub open spec fn added(tasks: Seq<TaskView>, description: Seq<char>) -> Seq<TaskView> {
    tasks.push(fresh(description))
}

/// The same task with its completion flag flipped.
pub open spec fn flipped(task: TaskView) -> TaskView {
    TaskView { description: task.description, completed: !task.completed }
}

/// The list after the task at `index` was toggled. An index that names no
/// task changes nothing.
pub open spec fn toggled(tasks: Seq<TaskView>, index: int) -> Seq<TaskView> {
    if 0 <= index < tasks.len() {
        tasks.update(index, flipped(tasks[index]))
    } else {
        tasks
    }
}

/// The list after one task was appended for each description, first to last,
/// starting from `tasks`.
pub open spec fn added_all(tasks: Seq<TaskView>, descriptions: Seq<Seq<char>>) -> Seq<TaskView>
    decreases descriptions.len(),
{
    if descriptions.len() == 0 {
        tasks
    } else {
        added(added_all(tasks, descriptions.drop_last()), descriptions.last())
    }
}

impl TodoList {
    /// An empty list.
    pub fn new() -> (list: TodoList)
        ensures
            list@ == Seq::<TaskView>::empty(),
    {
        let list = TodoList { tasks: Vec::new() };
        assert(list@ =~= Seq::<TaskView>::empty());
        list
    }

    /// Appends a task with the given description, not completed. Any
    /// description is taken, the empty one too.
    pub fn add_task(&mut self, description: String)
        ensures
            final(self)@ == added(old(self)@, description@),
    {
        let task = Task { description, completed: false };
        self.tasks.push(task);
        assert(self@ =~= added(old(self)@, description@));
    }

    /// Flips the completion flag of the task at `index`; an index past the end
    /// is ignored.
    pub fn toggle_task(&mut self, index: usize)
        ensures
            final(self)@ == toggled(old(self)@, index as int),
    {
        if index < self.tasks.len() {
            let completed = self.tasks[index].completed;
            self.tasks[index].completed = !completed;
            assert(self@ =~= toggled(old(self)@, index as int));
        }
    }

    /// The tasks in the order in which they were added.
    pub fn list(&self) -> (tasks: &Vec<Task>)
        ensures
            *tasks == self.tasks,
    {
        &self.tasks
    }

    /// How many tasks the list holds.
    pub fn len(&self) -> (n: usize)
        ensures
            n == self@.len(),
    {
        self.tasks.len()
    }
}

/// Repeated appends keep their order: after adding one task per description
/// to an empty list, the list has one task per description, at the same
/// position, and none of them is completed.
pub proof fn lemma_added_in_order(descriptions: Seq<Seq<char>>)
    ensures
        added_all(Seq::empty(), descriptions) == descriptions.map_values(
            |d: Seq<char>| fresh(d),
        ),
    decreases descriptions.len(),
{
    if descriptions.len() > 0 {
        lemma_added_in_order(descriptions.drop_last());
    }
    assert(added_all(Seq::empty(), descriptions) =~= descriptions.map_values(
        |d: Seq<char>| fresh(d),
    ));
}

/// Toggling a position that holds a task flips the flag of that task and
/// leaves every other task, and every description, as it was.
pub proof fn lemma_toggle_flips_one(tasks: Seq<TaskView>, index: int)
    requires
        0 <= index < tasks.len(),
    ensures
        toggled(tasks, index).len() == tasks.len(),
        toggled(tasks, index)[index].completed == !tasks[index].completed,
        toggled(tasks, index)[index].description == tasks[index].description,
        forall|j: int| 0 <= j < tasks.len() && j != index ==> toggled(tasks, index)[j] == tasks[j],
{
}

/// Toggling the same position twice gives back the list as it was.
pub proof fn lemma_toggle_twice(tasks: Seq<TaskView>, index: int)
    ensures
        toggled(toggled(tasks, index), index) == tasks,
{
    assert(toggled(toggled(tasks, index), index) =~= tasks);
}

/// Toggling a position that holds no task changes nothing.
pub proof fn lemma_toggle_out_of_range(tasks: Seq<TaskView>, index: int)
    requires
        !(0 <= index < tasks.len()),
    ensures
        toggled(tasks, index) == tasks,
{
}

} // verus!
