//! A task list that is driven by lines of text.
//!
//! A line is split into tokens and parsed into an [`action::Action`]; the
//! action is carried out on a [`task::TaskList`] and answers with an
//! [`action::Effect`], which tells the caller whether the list is to be
//! persisted or lines are to be printed. Reading input, printing and storage
//! are left to the caller.

pub mod action;
pub mod laws;
pub mod number;
pub mod task;
pub mod text;
