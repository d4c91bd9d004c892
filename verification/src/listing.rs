//! The list as it is shown: one line per task, numbered from one.

use crate::task::{Task, TaskView, TodoList};
use crate::text::{decimal, decimal_of};
use vstd::prelude::*;
use vstd::string::*;

verus! {

/// The mark between the brackets: `x` for a completed task, a blank for one
/// that is still open.
pub open spec fn mark_of(completed: bool) -> Seq<char> {
    if completed {
        "x"@
    } else {
        " "@
    }
}

/// The line that shows a task: its position, its mark in brackets, and its
/// description, as in `2. [x] Walk dog`.
pub open spec fn task_line(position: nat, task: TaskView) -> Seq<char> {
    decimal_of(position) + ". ["@ + mark_of(task.completed) + "] "@ + task.description
}

/// The lines that show a list: one per task, in order, the first at
/// position 1.
pub open spec fn listing(tasks: Seq<TaskView>) -> Seq<Seq<char>> {
    Seq::new(tasks.len(), |i: int| task_line((i + 1) as nat, tasks[i]))
}

/// The texts of a vector of strings.
pub open spec fn texts_of(lines: Seq<String>) -> Seq<Seq<char>> {
    lines.map_values(|line: String| line@)
}

impl Task {
    /// The line that shows the task at the given position.
    pub fn line(&self, position: usize) -> (line: String)
        ensures
            line@ == task_line(position as nat, self@),
    {
        let mut line = decimal(position);
        line.append(". [");
        line.append(
            if self.completed {
                "x"
            } else {
                " "
            },
        );
        line.append("] ");
        line.append(self.description.as_str());
        line
    }
}

impl TodoList {
    /// The lines that show the list.
    pub fn lines(&self) -> (lines: Vec<String>)
        ensures
            texts_of(lines@) == listing(self@),
    {
        let mut lines: Vec<String> = Vec::new();
        let mut i: usize = 0;
        while i < self.tasks.len()
            invariant
                i <= self.tasks.len(),
                lines.len() == i,
                forall|j: int| 0 <= j < i ==> (#[trigger] lines[j])@ == task_line((j + 1) as nat, self@[j]),
            decreases self.tasks.len() - i,
        {
            lines.push(self.tasks[i].line(i + 1));
            i += 1;
        }
        assert(texts_of(lines@) =~= listing(self@));
        lines
    }
}

} // verus!
