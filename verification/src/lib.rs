//! A kanban-style task board: one exclusively owned application state, a
//! closed set of messages that change it, and a pure projection of the state
//! into a description of what the board shows.
//!
//! * [`task`] and [`state`] hold the data: tasks with one of three statuses,
//!   and the entry form for the next task.
//! * [`msg`] names what a user can ask for, and [`model`] says what each
//!   request does to the state.
//! * [`board`] computes what is to be drawn: the form, and one column of
//!   cards for each status.
//! * [`decimal`] reads and writes the numbers of the effort field.

pub mod board;
pub mod decimal;
pub mod model;
pub mod msg;
pub mod state;
pub mod task;
