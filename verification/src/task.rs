//! A task and the three statuses it moves between.

use vstd::prelude::*;

verus! {

/// Status of a task that has not been started.
pub const TODO: u32 = 1;

/// Status of a task that is being worked on.
pub const DOING: u32 = 2;

/// Status of a finished task.
pub const DONE: u32 = 3;

/// A unit of work. A task has no identifier of its own: it is known by its
/// position in the task list.
#[derive(Clone, Debug, PartialEq, Eq)]
pub struct Task {
    pub name: String,
    pub assignee: String,
    /// Estimated effort in person-days.
    pub mandays: u32,
    /// One of `TODO`, `DOING`, `DONE`.
    pub status: u32,
}

/// The mathematical value of a `Task`.
#[verifier::ext_equal]
pub struct TaskView {
    pub name: Seq<char>,
    pub assignee: Seq<char>,
    pub mandays: nat,
    pub status: nat,
}

impl View for Task {
    type V = TaskView;

    open spec fn view(&self) -> TaskView {
        TaskView {
            name: self.name@,
            assignee: self.assignee@,
            mandays: self.mandays as nat,
            status: self.status as nat,
        }
    }
}

impl TaskView {
    /// The status is one of the three that exist.
    pub open spec fn wf(self) -> bool {
        TODO <= self.status <= DONE
    }

    /// The task one step further towards `DONE`; a finished task stays as it is.
    pub open spec fn advanced(self) -> TaskView {
        if self.status < DONE {
            TaskView { status: self.status + 1, ..self }
        } else {
            self
        }
    }

    /// The task one step back towards `TODO`; a task not yet started stays as it is.
    pub open spec fn retreated(self) -> TaskView {
        if self.status > TODO {
            TaskView { status: (self.status - 1) as nat, ..self }
        } else {
            self
        }
    }
}

} // verus!
