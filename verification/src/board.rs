//! What the board shows: a projection of the state, computed anew each time.

use vstd::prelude::*;
use crate::decimal::{decimal_text, to_decimal};
use crate::model::Model;
use crate::msg::{ChangeHandler, Msg, MsgView, TextHandler};
use crate::state::{tasks_view, State, StateView};
use crate::task::{Task, TaskView, DOING, DONE, TODO};

verus! {

/// One task as a column shows it.
#[derive(Clone, Debug, PartialEq, Eq)]
pub struct Card {
    pub name: String,
    pub assignee: String,
    /// The effort estimate as text.
    pub effort: String,
    /// What the control that moves the task back sends.
    pub retreat: Msg,
    /// What the control that moves the task forward sends.
    pub advance: Msg,
}

/// The tasks of one status.
#[derive(Clone, Debug, PartialEq, Eq)]
pub struct Column {
    pub status: u32,
    pub label: String,
    /// How many tasks have this status.
    pub count: usize,
    /// One card for each of them, in the order of the task list.
    pub cards: Vec<Card>,
}

/// The entry form for a new task.
#[derive(Clone, Debug, PartialEq, Eq)]
pub struct Header {
    /// The text of the name field.
    pub name: String,
    /// What the name field sends when its text changes.
    pub name_input: TextHandler,
    /// The value the assignee control shows as selected.
    pub assignee: String,
    /// The values the assignee control offers.
    pub assignees: Vec<String>,
    /// What the assignee control sends when it reports a change.
    pub assignee_change: ChangeHandler,
    /// The text of the effort field.
    pub mandays: String,
    /// What the effort field sends when its text changes.
    pub mandays_input: TextHandler,
    /// What the submit control sends.
    pub submit: Msg,
}

/// The whole board: the form, then one column for each status.
#[derive(Clone, Debug, PartialEq, Eq)]
pub struct Board {
    pub header: Header,
    pub columns: Vec<Column>,
}

/// The mathematical value of a `Card`.
#[verifier::ext_equal]
pub struct CardView {
    pub name: Seq<char>,
    pub assignee: Seq<char>,
    pub effort: Seq<char>,
    pub retreat: MsgView,
    pub advance: MsgView,
}

/// The mathematical value of a `Column`.
#[verifier::ext_equal]
pub struct ColumnView {
    pub status: nat,
    pub label: Seq<char>,
    pub count: nat,
    pub cards: Seq<CardView>,
}

/// The mathematical value of a `Header`.
#[verifier::ext_equal]
pub struct HeaderView {
    pub name: Seq<char>,
    pub name_input: TextHandler,
    pub assignee: Seq<char>,
    pub assignees: Seq<Seq<char>>,
    pub assignee_change: ChangeHandler,
    pub mandays: Seq<char>,
    pub mandays_input: TextHandler,
    pub submit: MsgView,
}

/// The mathematical value of a `Board`.
#[verifier::ext_equal]
pub struct BoardView {
    pub header: HeaderView,
    pub columns: Seq<ColumnView>,
}

impl View for Card {
    type V = CardView;

    open spec fn view(&self) -> CardView {
        CardView {
            name: self.name@,
            assignee: self.assignee@,
            effort: self.effort@,
            retreat: self.retreat@,
            advance: self.advance@,
        }
    }
}

impl View for Column {
    type V = ColumnView;

    open spec fn view(&self) -> ColumnView {
        ColumnView {
            status: self.status as nat,
            label: self.label@,
            count: self.count as nat,
            cards: self.cards@.map_values(|card: Card| card@),
        }
    }
}

impl View for Header {
    type V = HeaderView;

    open spec fn view(&self) -> HeaderView {
        HeaderView {
            name: self.name@,
            name_input: self.name_input,
            assignee: self.assignee@,
            assignees: self.assignees@.map_values(|value: String| value@),
            assignee_change: self.assignee_change,
            mandays: self.mandays@,
            mandays_input: self.mandays_input,
            submit: self.submit@,
        }
    }
}

impl View for Board {
    type V = BoardView;

    open spec fn view(&self) -> BoardView {
        BoardView {
            header: self.header@,
            columns: self.columns@.map_values(|column: Column| column@),
        }
    }
}

/// How a card words an effort estimate.
pub open spec fn effort_text(mandays: nat) -> Seq<char> {
    decimal_text(mandays) + " person-days"@
}

/// The card of the task that stands at `idx` in the task list. Its controls
/// name the task by that position, whichever column shows the card.
pub open spec fn card_of(idx: int, task: TaskView) -> CardView {
    CardView {
        name: task.name,
        assignee: task.assignee,
        effort: effort_text(task.mandays),
        retreat: MsgView::DecreaseStatus(idx as nat),
        advance: MsgView::IncreaseStatus(idx as nat),
    }
}

/// The positions of the tasks that have `status`, in increasing order.
pub open spec fn indices_with_status(tasks: Seq<TaskView>, status: nat) -> Seq<int>
    decreases tasks.len(),
{
    if tasks.len() == 0 {
        Seq::empty()
    } else {
        let before = indices_with_status(tasks.drop_last(), status);
        if tasks.last().status == status {
            before.push(tasks.len() - 1)
        } else {
            before
        }
    }
}

/// The cards of the tasks that have `status`, in the order of the task list.
pub open spec fn cards_with_status(tasks: Seq<TaskView>, status: nat) -> Seq<CardView> {
    indices_with_status(tasks, status).map_values(|idx: int| card_of(idx, tasks[idx]))
}

/// The column for `status` under the heading `label`.
pub open spec fn column_of(status: nat, label: Seq<char>, tasks: Seq<TaskView>) -> ColumnView {
    ColumnView {
        status,
        label,
        count: indices_with_status(tasks, status).len(),
        cards: cards_with_status(tasks, status),
    }
}

/// The people a task can be given to.
pub open spec fn assignee_options() -> Seq<Seq<char>> {
    seq!["🐱"@, "🐶"@, "🐹"@]
}

/// The form as it stands for `state`.
pub open spec fn header_of(state: StateView) -> HeaderView {
    HeaderView {
        name: state.new_task_name,
        name_input: TextHandler::NewTaskName,
        assignee: state.new_task_assignee,
        assignees: assignee_options(),
        assignee_change: ChangeHandler::NewTaskAssignee,
        mandays: decimal_text(state.new_task_mandays),
        mandays_input: TextHandler::NewTaskMandays,
        submit: MsgView::NewTask,
    }
}

/// The board as it stands for `state`.
pub open spec fn board_of(state: StateView) -> BoardView {
    BoardView {
        header: header_of(state),
        columns: seq![
            column_of(TODO as nat, "未対応"@, state.tasks),
            column_of(DOING as nat, "処理中"@, state.tasks),
            column_of(DONE as nat, "完了"@, state.tasks),
        ],
    }
}

/// What `indices_with_status` holds: positions of the list at which the
/// status is the one asked for, in increasing order, and each such position.
pub proof fn lemma_indices_with_status(tasks: Seq<TaskView>, status: nat)
    ensures
        indices_with_status(tasks, status).len() <= tasks.len(),
        forall|k: int|
            0 <= k < indices_with_status(tasks, status).len() ==> {
                let idx = #[trigger] indices_with_status(tasks, status)[k];
                0 <= idx < tasks.len() && tasks[idx].status == status
            },
        forall|j: int, k: int|
            0 <= j < k < indices_with_status(tasks, status).len() ==>
                #[trigger] indices_with_status(tasks, status)[j]
                    < #[trigger] indices_with_status(tasks, status)[k],
        forall|idx: int|
            0 <= idx < tasks.len() && (#[trigger] tasks[idx]).status == status ==>
                indices_with_status(tasks, status).contains(idx),
    decreases tasks.len(),
{
    if tasks.len() > 0 {
        let shorter = tasks.drop_last();
        let before = indices_with_status(shorter, status);
        let all = indices_with_status(tasks, status);
        lemma_indices_with_status(shorter, status);
        assert forall|idx: int|
            0 <= idx < tasks.len() && (#[trigger] tasks[idx]).status == status implies all.contains(idx) by {
            if idx < shorter.len() {
                assert(shorter[idx].status == status);
                let k = choose|k: int| 0 <= k < before.len() && before[k] == idx;
                assert(all[k] == idx);
            } else {
                assert(all[before.len() as int] == idx);
            }
        }
    }
}

/// Each card of a column shows a task of the column's status, and its
/// controls name that task by its position in the whole task list, not by
/// the card's position in the column.
pub proof fn lemma_card_names_its_task(tasks: Seq<TaskView>, status: nat, k: int)
    requires
        0 <= k < cards_with_status(tasks, status).len(),
    ensures
        ({
            let idx = indices_with_status(tasks, status)[k];
            let card = cards_with_status(tasks, status)[k];
            &&& k <= idx < tasks.len()
            &&& tasks[idx].status == status
            &&& card == card_of(idx, tasks[idx])
            &&& card.retreat == MsgView::DecreaseStatus(idx as nat)
            &&& card.advance == MsgView::IncreaseStatus(idx as nat)
        }),
    decreases k,
{
    lemma_indices_with_status(tasks, status);
    if k > 0 {
        lemma_card_names_its_task(tasks, status, k - 1);
    }
}

/// Where every task has one of the three statuses, the three of them divide
/// the task list among them.
pub proof fn lemma_statuses_partition(tasks: Seq<TaskView>)
    requires
        forall|i: int| 0 <= i < tasks.len() ==> (#[trigger] tasks[i]).wf(),
    ensures
        indices_with_status(tasks, TODO as nat).len() + indices_with_status(tasks, DOING as nat).len()
            + indices_with_status(tasks, DONE as nat).len() == tasks.len(),
    decreases tasks.len(),
{
    if tasks.len() > 0 {
        lemma_statuses_partition(tasks.drop_last());
    }
}

/// The counts of the three columns add up to the number of tasks, and each
/// column shows as many cards as it counts.
pub proof fn lemma_column_counts(state: StateView)
    requires
        state.wf(),
    ensures
        board_of(state).columns.len() == 3,
        board_of(state).columns[0].count + board_of(state).columns[1].count
            + board_of(state).columns[2].count == state.tasks.len(),
        forall|c: int|
            0 <= c < 3 ==> (#[trigger] board_of(state).columns[c]).cards.len()
                == board_of(state).columns[c].count,
{
    lemma_statuses_partition(state.tasks);
}

/// The card of one task.
pub fn view_task(idx: usize, task: &Task) -> (card: Card)
    ensures
        card@ == card_of(idx as int, task@),
{
    let mut effort = to_decimal(task.mandays);
    effort.append(" person-days");
    Card {
        name: task.name.clone(),
        assignee: task.assignee.clone(),
        effort,
        retreat: Msg::DecreaseStatus(idx),
        advance: Msg::IncreaseStatus(idx),
    }
}

/// The list with one more task shows the cards it showed, and after them the
/// card of the new task if that has the status asked for.
proof fn lemma_cards_with_status_step(tasks: Seq<TaskView>, status: nat)
    requires
        tasks.len() > 0,
    ensures
        cards_with_status(tasks, status) == if tasks.last().status == status {
            cards_with_status(tasks.drop_last(), status).push(card_of(tasks.len() - 1, tasks.last()))
        } else {
            cards_with_status(tasks.drop_last(), status)
        },
{
    lemma_indices_with_status(tasks.drop_last(), status);
}

/// The column of one status: its heading, how many tasks have the status, and
/// their cards. Each card names its task by the position in `tasks`.
pub fn view_column(status: u32, status_text: &str, tasks: &Vec<Task>) -> (column: Column)
    ensures
        column@ == column_of(status as nat, status_text@, tasks_view(tasks@)),
{
    let ghost all = tasks_view(tasks@);
    let mut cards: Vec<Card> = Vec::new();
    let mut idx: usize = 0;
    while idx < tasks.len()
        invariant
            idx <= tasks.len(),
            all == tasks_view(tasks@),
            cards@.map_values(|card: Card| card@) == cards_with_status(all.take(idx as int), status as nat),
        decreases tasks.len() - idx,
    {
        proof {
            let longer = all.take(idx + 1);
            assert(longer.drop_last() =~= all.take(idx as int));
            lemma_cards_with_status_step(longer, status as nat);
        }
        if tasks[idx].status == status {
            cards.push(view_task(idx, &tasks[idx]));
        }
        idx = idx + 1;
    }
    assert(all.take(tasks.len() as int) =~= all);
    Column { status, label: status_text.to_string(), count: cards.len(), cards }
}

/// The entry form: what its fields hold, whom a task can be given to, and
/// what its submit control sends.
pub fn view_header(state: &State) -> (header: Header)
    ensures
        header@ == header_of(state@),
{
    let mut assignees: Vec<String> = Vec::new();
    assignees.push("🐱".to_string());
    assignees.push("🐶".to_string());
    assignees.push("🐹".to_string());
    Header {
        name: state.new_task_name.clone(),
        name_input: TextHandler::NewTaskName,
        assignee: state.new_task_assignee.clone(),
        assignees,
        assignee_change: ChangeHandler::NewTaskAssignee,
        mandays: to_decimal(state.new_task_mandays),
        mandays_input: TextHandler::NewTaskMandays,
        submit: Msg::NewTask,
    }
}

impl Model {
    /// The board as it is to be drawn now.
    pub fn view(&self) -> (board: Board)
        ensures
            board@ == board_of(self.state@),
            self.state@.wf() ==> board.columns[0].count + board.columns[1].count
                + board.columns[2].count == self.state.tasks.len(),
    {
        proof {
            if self.state@.wf() {
                lemma_column_counts(self.state@);
            }
        }
        let mut columns: Vec<Column> = Vec::new();
        columns.push(view_column(TODO, "未対応", &self.state.tasks));
        columns.push(view_column(DOING, "処理中", &self.state.tasks));
        columns.push(view_column(DONE, "完了", &self.state.tasks));
        Board { header: view_header(&self.state), columns }
    }
}

} // verus!
