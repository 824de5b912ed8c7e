//! The board as a component: how it starts and how messages change it.

use vstd::prelude::*;
use crate::decimal::{parse_decimal, parse_u32};
use crate::msg::{ChangeData, ChangeDataView, Msg, MsgView};
use crate::state::{lemma_add_new_task_wf, lemma_decrease_status_wf, lemma_increase_status_wf, State, StateView};
use crate::task::{Task, TaskView, DOING, DONE, TODO};

verus! {

/// The board: the state and nothing else.
#[derive(Clone, Debug, PartialEq, Eq)]
pub struct Model {
    pub state: State,
}

/// The four example tasks a new board shows.
pub open spec fn seed_tasks() -> Seq<TaskView> {
    seq![
        TaskView { name: "Task 1"@, assignee: "🐱"@, mandays: 3, status: TODO as nat },
        TaskView { name: "Task 2"@, assignee: "🐶"@, mandays: 2, status: TODO as nat },
        TaskView { name: "Task 3"@, assignee: "🐱"@, mandays: 1, status: DOING as nat },
        TaskView { name: "Task 4"@, assignee: "🐹"@, mandays: 3, status: DONE as nat },
    ]
}

/// The state of a new board: the example tasks and an empty form.
pub open spec fn initial_state() -> StateView {
    StateView {
        tasks: seed_tasks(),
        new_task_name: Seq::empty(),
        new_task_assignee: Seq::empty(),
        new_task_mandays: 0,
    }
}

impl StateView {
    /// The state after `msg`.
    pub open spec fn step(self, msg: MsgView) -> StateView {
        match msg {
            MsgView::UpdateNewTaskName(text) => StateView { new_task_name: text, ..self },
            MsgView::UpdateNewTaskAssignee(change) => match change {
                ChangeDataView::Select(value) => StateView { new_task_assignee: value, ..self },
                _ => self,
            },
            MsgView::UpdateNewTaskMandays(text) => match parse_u32(text) {
                Some(mandays) => StateView { new_task_mandays: mandays as nat, ..self },
                None => self,
            },
            MsgView::NewTask => self.add_new_task(
                self.new_task_name,
                self.new_task_assignee,
                self.new_task_mandays,
            ),
            MsgView::IncreaseStatus(idx) => self.increase_status(idx as int),
            MsgView::DecreaseStatus(idx) => self.decrease_status(idx as int),
        }
    }
}

impl StateView {
    /// The state after each message of `msgs` in turn, the first one first.
    pub open spec fn run(self, msgs: Seq<MsgView>) -> StateView
        decreases msgs.len(),
    {
        if msgs.len() == 0 {
            self
        } else {
            self.run(msgs.drop_last()).step(msgs.last())
        }
    }
}

/// A new board holds tasks of the three statuses only.
pub proof fn lemma_initial_state_wf()
    ensures
        initial_state().wf(),
{
}

/// No message takes a task away, and no message gives a task a status other
/// than the three: one that has such a status keeps one.
pub proof fn lemma_step_keeps_status_in_range(state: StateView, msg: MsgView, idx: int)
    requires
        0 <= idx < state.tasks.len(),
        state.tasks[idx].wf(),
    ensures
        idx < state.step(msg).tasks.len(),
        state.step(msg).tasks[idx].wf(),
{
}

/// A task that starts in one of the three statuses, `TODO` for one, is in one
/// of them after every message of any sequence of messages, whether they
/// move it, another one or none.
pub proof fn lemma_status_always_in_range(state: StateView, msgs: Seq<MsgView>, idx: int)
    requires
        0 <= idx < state.tasks.len(),
        state.tasks[idx].wf(),
    ensures
        forall|k: int|
            0 <= k <= msgs.len() ==> {
                let reached = #[trigger] state.run(msgs.take(k));
                idx < reached.tasks.len() && TODO <= reached.tasks[idx].status <= DONE
            },
    decreases msgs.len(),
{
    assert forall|k: int| 0 <= k <= msgs.len() implies {
        let reached = #[trigger] state.run(msgs.take(k));
        idx < reached.tasks.len() && TODO <= reached.tasks[idx].status <= DONE
    } by {
        if k > 0 {
            let upto = msgs.take(k);
            lemma_status_always_in_range(state, upto.drop_last(), idx);
            assert(upto.drop_last().take(k - 1) =~= upto.drop_last());
            lemma_step_keeps_status_in_range(state.run(upto.drop_last()), upto.last(), idx);
        }
    }
}

/// A valid state stays valid under every message.
pub proof fn lemma_step_preserves_wf(state: StateView, msg: MsgView)
    requires
        state.wf(),
    ensures
        state.step(msg).wf(),
{
    match msg {
        MsgView::NewTask => {
            lemma_add_new_task_wf(state, state.new_task_name, state.new_task_assignee, state.new_task_mandays);
        },
        MsgView::IncreaseStatus(idx) => {
            lemma_increase_status_wf(state, idx as int);
        },
        MsgView::DecreaseStatus(idx) => {
            lemma_decrease_status_wf(state, idx as int);
        },
        _ => {},
    }
}

/// A valid state stays valid under every sequence of messages.
pub proof fn lemma_run_preserves_wf(state: StateView, msgs: Seq<MsgView>)
    requires
        state.wf(),
    ensures
        state.run(msgs).wf(),
    decreases msgs.len(),
{
    if msgs.len() > 0 {
        lemma_run_preserves_wf(state, msgs.drop_last());
        lemma_step_preserves_wf(state.run(msgs.drop_last()), msgs.last());
    }
}

/// Moving a finished task forward changes nothing in the state.
pub proof fn lemma_increase_done_is_noop(state: StateView, idx: nat)
    requires
        idx < state.tasks.len(),
        state.tasks[idx as int].status == DONE,
    ensures
        state.step(MsgView::IncreaseStatus(idx)) == state,
{
}

/// Moving a task back that has not been started changes nothing in the state.
pub proof fn lemma_decrease_todo_is_noop(state: StateView, idx: nat)
    requires
        idx < state.tasks.len(),
        state.tasks[idx as int].status == TODO,
    ensures
        state.step(MsgView::DecreaseStatus(idx)) == state,
{
}

/// Moving a task that the list does not have changes nothing in the state.
pub proof fn lemma_move_past_end_is_noop(state: StateView, idx: nat)
    requires
        idx >= state.tasks.len(),
    ensures
        state.step(MsgView::IncreaseStatus(idx)) == state,
        state.step(MsgView::DecreaseStatus(idx)) == state,
{
}

/// A move changes the status of one task by one and nothing else: no name,
/// no assignee, no effort, no other task, no form buffer, and not the number
/// of tasks.
pub proof fn lemma_move_is_one_step(state: StateView, msg: MsgView, idx: int)
    requires
        msg.is_status_move(),
        0 <= idx < state.tasks.len(),
    ensures
        state.step(msg).tasks.len() == state.tasks.len(),
        state.step(msg).new_task_name == state.new_task_name,
        state.step(msg).new_task_assignee == state.new_task_assignee,
        state.step(msg).new_task_mandays == state.new_task_mandays,
        state.step(msg).tasks[idx].name == state.tasks[idx].name,
        state.step(msg).tasks[idx].assignee == state.tasks[idx].assignee,
        state.step(msg).tasks[idx].mandays == state.tasks[idx].mandays,
        state.step(msg).tasks[idx].status == state.tasks[idx].status
            || state.step(msg).tasks[idx].status == state.tasks[idx].status + 1
            || state.step(msg).tasks[idx].status == state.tasks[idx].status - 1,
        msg != MsgView::IncreaseStatus(idx as nat) && msg != MsgView::DecreaseStatus(idx as nat)
            ==> state.step(msg).tasks[idx] == state.tasks[idx],
{
}

impl Model {
    /// A new board.
    pub fn create() -> (model: Model)
        ensures
            model.state@ == initial_state(),
            model.state@.wf(),
    {
        let mut tasks: Vec<Task> = Vec::new();
        tasks.push(Task { name: "Task 1".to_string(), assignee: "🐱".to_string(), mandays: 3, status: TODO });
        tasks.push(Task { name: "Task 2".to_string(), assignee: "🐶".to_string(), mandays: 2, status: TODO });
        tasks.push(Task { name: "Task 3".to_string(), assignee: "🐱".to_string(), mandays: 1, status: DOING });
        tasks.push(Task { name: "Task 4".to_string(), assignee: "🐹".to_string(), mandays: 3, status: DONE });
        let model = Model {
            state: State {
                tasks,
                new_task_name: "".to_string(),
                new_task_assignee: "".to_string(),
                new_task_mandays: 0,
            },
        };
        proof {
            reveal_strlit("");
        }
        model
    }

    /// Applies `msg` to the state. The answer says that the board has to be
    /// drawn again, which it always has.
    pub fn update(&mut self, msg: Msg) -> (should_render: bool)
        ensures
            final(self).state@ == old(self).state@.step(msg@),
            old(self).state@.wf() ==> final(self).state@.wf(),
            should_render,
    {
        match msg {
            Msg::UpdateNewTaskName(val) => {
                self.state.new_task_name = val;
            },
            Msg::UpdateNewTaskAssignee(val) => {
                if let ChangeData::Select(v) = val {
                    self.state.new_task_assignee = v;
                }
            },
            Msg::UpdateNewTaskMandays(val) => {
                if let Some(v) = parse_decimal(val.as_str()) {
                    self.state.new_task_mandays = v;
                }
            },
            Msg::NewTask => {
                let name = self.state.new_task_name.clone();
                let assignee = self.state.new_task_assignee.clone();
                let mandays: u32 = self.state.new_task_mandays;
                self.state.add_new_task(name, assignee, mandays);
            },
            Msg::IncreaseStatus(idx) => {
                self.state.increase_status(idx);
            },
            Msg::DecreaseStatus(idx) => {
                self.state.decrease_status(idx);
            },
        }
        true
    }
}

} // verus!
