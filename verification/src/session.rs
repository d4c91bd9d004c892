//! The session: which question a line of input answers, what the answer does
//! to the list, and what is to be shown or done next.
//!
//! The caller reads the lines and does the showing and the saving; every
//! decision is made here.

use crate::listing::{listing, texts_of};
use crate::task::{added, toggled, TaskView, TodoList};
use crate::text::{
    decimal_of, lemma_decimal_round_trip, lemma_decimal_trimmed, number_of, parse_number, trim,
    trimmed,
};
use vstd::prelude::*;
use vstd::string::*;

verus! {

/// One of the four options of the menu, or none of them.
#[derive(Debug, Clone, Copy, PartialEq, Eq)]
pub enum Choice {
    Add,
    List,
    Toggle,
    Quit,
    Invalid,
}

/// What the next line of input is taken for. A session runs until it
/// reaches `Exiting`.
#[derive(Debug, Clone, Copy, PartialEq, Eq)]
pub enum Stage {
    /// The line names an option of the menu.
    Choosing,
    /// The line describes the task to add.
    Describing,
    /// The line gives the position of the task to toggle.
    Positioning,
    /// The session is over; the list has been handed over for saving.
    Exiting,
}

/// What the caller is to do after a line was taken.
#[derive(Debug, Clone, PartialEq, Eq)]
pub enum Reply {
    /// Ask for the description of a new task.
    AskDescription,
    /// Ask for the position of the task to toggle.
    AskPosition,
    /// Show these lines, one per task.
    Show(Vec<String>),
    /// Save the list, then stop.
    Save,
    /// Say that the line named no option.
    Invalid,
    /// Nothing to show.
    Done,
}

/// What a [`Reply`] is, as a mathematical value.
pub enum ReplyView {
    AskDescription,
    AskPosition,
    Show(Seq<Seq<char>>),
    Save,
    Invalid,
    Done,
}

impl View for Reply {
    type V = ReplyView;

    open spec fn view(&self) -> ReplyView {
        match self {
            Reply::AskDescription => ReplyView::AskDescription,
            Reply::AskPosition => ReplyView::AskPosition,
            Reply::Show(lines) => ReplyView::Show(texts_of(lines@)),
            Reply::Save => ReplyView::Save,
            Reply::Invalid => ReplyView::Invalid,
            Reply::Done => ReplyView::Done,
        }
    }
}

/// A list together with the stage that its session has reached.
#[derive(Debug, Clone, PartialEq, Eq)]
pub struct Session {
    pub store: TodoList,
    pub stage: Stage,
}

/// What a [`Session`] is, as a mathematical value.
pub struct SessionView {
    pub store: Seq<TaskView>,
    pub stage: Stage,
}

impl View for Session {
    type V = SessionView;

    open spec fn view(&self) -> SessionView {
        SessionView { store: self.store@, stage: self.stage }
    }
}

/// The option that a line names: `1` to `4`, white space around it aside.
pub open spec fn choice_of(line: Seq<char>) -> Choice {
    let word = trimmed(line);
    if word == "1"@ {
        Choice::Add
    } else if word == "2"@ {
        Choice::List
    } else if word == "3"@ {
        Choice::Toggle
    } else if word == "4"@ {
        Choice::Quit
    } else {
        Choice::Invalid
    }
}

/// The list after a line was taken as the position of the task to toggle.
///
/// Positions count from one. A line that is no number, the number zero, and
/// a position past the end all leave the list as it was.
pub open spec fn toggled_at(tasks: Seq<TaskView>, line: Seq<char>) -> Seq<TaskView> {
    match number_of(trimmed(line)) {
        Some(position) => if position >= 1 {
            toggled(tasks, position - 1)
        } else {
            tasks
        },
        None => tasks,
    }
}

/// The session after a line of input, and the reply to it.
pub open spec fn stepped(before: SessionView, line: Seq<char>) -> (SessionView, ReplyView) {
    match before.stage {
        Stage::Choosing => match choice_of(line) {
            Choice::Add => (
                SessionView { store: before.store, stage: Stage::Describing },
                ReplyView::AskDescription,
            ),
            Choice::List => (before, ReplyView::Show(listing(before.store))),
            Choice::Toggle => (
                SessionView { store: before.store, stage: Stage::Positioning },
                ReplyView::AskPosition,
            ),
            Choice::Quit => (
                SessionView { store: before.store, stage: Stage::Exiting },
                ReplyView::Save,
            ),
            Choice::Invalid => (before, ReplyView::Invalid),
        },
        Stage::Describing => (
            SessionView { store: added(before.store, trimmed(line)), stage: Stage::Choosing },
            ReplyView::Done,
        ),
        Stage::Positioning => (
            SessionView { store: toggled_at(before.store, line), stage: Stage::Choosing },
            ReplyView::Done,
        ),
        Stage::Exiting => (before, ReplyView::Done),
    }
}

/// Reads a line as an option of the menu.
pub fn parse_choice(line: &str) -> (choice: Choice)
    ensures
        choice == choice_of(line@),
{
    let word = trim(line);
    proof {
        reveal_strlit("1");
        reveal_strlit("2");
        reveal_strlit("3");
        reveal_strlit("4");
    }
    if word.unicode_len() != 1 {
        return Choice::Invalid;
    }
    let c = word.get_char(0);
    assert(word@ =~= seq![c]);
    if c == '1' {
        assert(word@ =~= "1"@);
        Choice::Add
    } else if c == '2' {
        assert(word@ =~= "2"@);
        Choice::List
    } else if c == '3' {
        assert(word@ =~= "3"@);
        Choice::Toggle
    } else if c == '4' {
        assert(word@ =~= "4"@);
        Choice::Quit
    } else {
        Choice::Invalid
    }
}

impl TodoList {
    /// Takes a line as the position, counted from one, of the task to
    /// toggle, and toggles it. A line that names no task changes nothing.
    pub fn toggle_position(&mut self, line: &str)
        ensures
            final(self)@ == toggled_at(old(self)@, line@),
    {
        assert(self@.len() == self.tasks.len() <= usize::MAX);
        match parse_number(trim(line)) {
            Some(position) => {
                if position >= 1 {
                    self.toggle_task(position - 1);
                }
            },
            None => {},
        }
    }
}

impl Session {
    /// A session on the given list, about to show its menu.
    pub fn new(store: TodoList) -> (session: Session)
        ensures
            session@ == (SessionView { store: store@, stage: Stage::Choosing }),
    {
        Session { store, stage: Stage::Choosing }
    }

    /// Whether the session is over.
    pub fn finished(&self) -> (over: bool)
        ensures
            over == (self@.stage == Stage::Exiting),
    {
        match self.stage {
            Stage::Exiting => true,
            _ => false,
        }
    }

    /// Takes one line of input.
    ///
    /// At the menu the line names an option; after `1` the next line is the
    /// description of the task to add, after `3` the position of the task
    /// to toggle. Once the session is over, lines are passed over.
    pub fn step(&mut self, line: &str) -> (reply: Reply)
        ensures
            (final(self)@, reply@) == stepped(old(self)@, line@),
    {
        match self.stage {
            Stage::Choosing => match parse_choice(line) {
                Choice::Add => {
                    self.stage = Stage::Describing;
                    Reply::AskDescription
                },
                Choice::List => Reply::Show(self.store.lines()),
                Choice::Toggle => {
                    self.stage = Stage::Positioning;
                    Reply::AskPosition
                },
                Choice::Quit => {
                    self.stage = Stage::Exiting;
                    Reply::Save
                },
                Choice::Invalid => Reply::Invalid,
            },
            Stage::Describing => {
                self.store.add_task(String::from_str(trim(line)));
                self.stage = Stage::Choosing;
                Reply::Done
            },
            Stage::Positioning => {
                self.store.toggle_position(line);
                self.stage = Stage::Choosing;
                Reply::Done
            },
            Stage::Exiting => Reply::Done,
        }
    }
}

/// A session that is over stays over, whatever line comes, and its list
/// stays as it is.
pub proof fn lemma_exiting_is_final(before: SessionView, line: Seq<char>)
    requires
        before.stage == Stage::Exiting,
    ensures
        stepped(before, line) == (before, ReplyView::Done),
{
}

/// The number in front of a line of the listing is the position to give for
/// toggling the task on that line.
pub proof fn lemma_shown_position_toggles(tasks: Seq<TaskView>, index: int)
    requires
        0 <= index < tasks.len(),
    ensures
        toggled_at(tasks, decimal_of((index + 1) as nat)) == toggled(tasks, index),
{
    lemma_decimal_trimmed((index + 1) as nat);
    lemma_decimal_round_trip((index + 1) as nat);
}

} // verus!
