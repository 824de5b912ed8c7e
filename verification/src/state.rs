//! The application state: the task list and the buffers of the entry form.

use vstd::prelude::*;
use crate::task::{Task, TaskView, DONE, TODO};

verus! {

/// Everything the board knows: the tasks in the order in which they were
/// added, and what has been entered so far for the next task.
#[derive(Clone, Debug, PartialEq, Eq)]
pub struct State {
    pub tasks: Vec<Task>,
    pub new_task_name: String,
    pub new_task_assignee: String,
    pub new_task_mandays: u32,
}

/// The mathematical value of a `State`.
#[verifier::ext_equal]
pub struct StateView {
    pub tasks: Seq<TaskView>,
    pub new_task_name: Seq<char>,
    pub new_task_assignee: Seq<char>,
    pub new_task_mandays: nat,
}

/// The values of the tasks of a list, in the list's order.
pub open spec fn tasks_view(tasks: Seq<Task>) -> Seq<TaskView> {
    tasks.map_values(|task: Task| task@)
}

impl View for State {
    type V = StateView;

    open spec fn view(&self) -> StateView {
        StateView {
            tasks: tasks_view(self.tasks@),
            new_task_name: self.new_task_name@,
            new_task_assignee: self.new_task_assignee@,
            new_task_mandays: self.new_task_mandays as nat,
        }
    }
}

impl StateView {
    /// Every task has one of the three statuses.
    pub open spec fn wf(self) -> bool {
        forall|i: int| 0 <= i < self.tasks.len() ==> (#[trigger] self.tasks[i]).wf()
    }

    /// The state with one more task at the end of the list, in status `TODO`.
    pub open spec fn add_new_task(self, name: Seq<char>, assignee: Seq<char>, mandays: nat) -> StateView {
        StateView {
            tasks: self.tasks.push(TaskView { name, assignee, mandays, status: TODO as nat }),
            ..self
        }
    }

    /// The state with the task at `idx` moved one status forward. Nothing
    /// changes where there is no such task or it is `DONE`.
    pub open spec fn increase_status(self, idx: int) -> StateView {
        if 0 <= idx < self.tasks.len() {
            StateView { tasks: self.tasks.update(idx, self.tasks[idx].advanced()), ..self }
        } else {
            self
        }
    }

    /// The state with the task at `idx` moved one status back. Nothing
    /// changes where there is no such task or it is `TODO`.
    pub open spec fn decrease_status(self, idx: int) -> StateView {
        if 0 <= idx < self.tasks.len() {
            StateView { tasks: self.tasks.update(idx, self.tasks[idx].retreated()), ..self }
        } else {
            self
        }
    }
}

/// Adding a task leaves every task with one of the three statuses.
pub proof fn lemma_add_new_task_wf(state: StateView, name: Seq<char>, assignee: Seq<char>, mandays: nat)
    requires
        state.wf(),
    ensures
        state.add_new_task(name, assignee, mandays).wf(),
{
    let added = state.add_new_task(name, assignee, mandays);
    assert forall|i: int| 0 <= i < added.tasks.len() implies (#[trigger] added.tasks[i]).wf() by {}
}

/// Moving a task forward leaves every task with one of the three statuses.
pub proof fn lemma_increase_status_wf(state: StateView, idx: int)
    requires
        state.wf(),
    ensures
        state.increase_status(idx).wf(),
{
    let moved = state.increase_status(idx);
    assert forall|i: int| 0 <= i < moved.tasks.len() implies (#[trigger] moved.tasks[i]).wf() by {}
}

/// Moving a task back leaves every task with one of the three statuses.
pub proof fn lemma_decrease_status_wf(state: StateView, idx: int)
    requires
        state.wf(),
    ensures
        state.decrease_status(idx).wf(),
{
    let moved = state.decrease_status(idx);
    assert forall|i: int| 0 <= i < moved.tasks.len() implies (#[trigger] moved.tasks[i]).wf() by {}
}

impl State {
    /// Appends a task in status `TODO`. The form buffers are left alone.
    pub fn add_new_task(&mut self, name: String, assignee: String, mandays: u32)
        ensures
            final(self)@ == old(self)@.add_new_task(name@, assignee@, mandays as nat),
            old(self)@.wf() ==> final(self)@.wf(),
    {
        self.tasks.push(Task { name, assignee, mandays, status: TODO });
        proof {
            if old(self)@.wf() {
                lemma_add_new_task_wf(old(self)@, name@, assignee@, mandays as nat);
            }
        }
    }

    /// Moves the task at `idx` one status forward, unless it is `DONE` or
    /// `idx` is past the end of the list.
    pub fn increase_status(&mut self, idx: usize)
        ensures
            final(self)@ == old(self)@.increase_status(idx as int),
            old(self)@.wf() ==> final(self)@.wf(),
    {
        if idx < self.tasks.len() {
            let status: u32 = self.tasks[idx].status;
            if status < DONE {
                self.tasks[idx].status = status + 1;
            }
        }
        proof {
            if old(self)@.wf() {
                lemma_increase_status_wf(old(self)@, idx as int);
            }
        }
    }

    /// Moves the task at `idx` one status back, unless it is `TODO` or `idx`
    /// is past the end of the list.
    pub fn decrease_status(&mut self, idx: usize)
        ensures
            final(self)@ == old(self)@.decrease_status(idx as int),
            old(self)@.wf() ==> final(self)@.wf(),
    {
        if idx < self.tasks.len() {
            let status: u32 = self.tasks[idx].status;
            if status > TODO {
                self.tasks[idx].status = status - 1;
            }
        }
        proof {
            if old(self)@.wf() {
                lemma_decrease_status_wf(old(self)@, idx as int);
            }
        }
    }
}

} // verus!
