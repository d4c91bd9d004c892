//! A small to-do list: an ordered store of tasks that can be appended to and
//! toggled by position, the JSON document that keeps it between sessions,
//! and the decisions of the menu-driven session around it.

pub mod document;
pub mod json;
pub mod listing;
pub mod session;
pub mod task;
pub mod text;
