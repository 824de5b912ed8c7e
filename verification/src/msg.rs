//! The messages that change the state, and the input events they carry.

use vstd::prelude::*;

verus! {

/// What a form control reports when the user has committed a change to it.
#[derive(Clone, Debug, PartialEq, Eq)]
pub enum ChangeData {
    /// The new text of a text input or a text area.
    Value(String),
    /// The value now selected in a selection control.
    Select(String),
    /// Files were chosen in a file input.
    Files,
}

/// The mathematical value of a `ChangeData`.
#[verifier::ext_equal]
pub enum ChangeDataView {
    Value(Seq<char>),
    Select(Seq<char>),
    Files,
}

impl View for ChangeData {
    type V = ChangeDataView;

    open spec fn view(&self) -> ChangeDataView {
        match self {
            ChangeData::Value(text) => ChangeDataView::Value(text@),
            ChangeData::Select(value) => ChangeDataView::Select(value@),
            ChangeData::Files => ChangeDataView::Files,
        }
    }
}

/// One user intent. The state changes in answer to messages and to nothing else.
#[derive(Clone, Debug, PartialEq, Eq)]
pub enum Msg {
    /// Move the task at this position of the task list one status forward.
    IncreaseStatus(usize),
    /// Move the task at this position of the task list one status back.
    DecreaseStatus(usize),
    /// The name field of the form now holds this text.
    UpdateNewTaskName(String),
    /// The assignee control of the form reported this change.
    UpdateNewTaskAssignee(ChangeData),
    /// The effort field of the form now holds this text.
    UpdateNewTaskMandays(String),
    /// Add a task made from what the form holds.
    NewTask,
}

/// The mathematical value of a `Msg`.
#[verifier::ext_equal]
pub enum MsgView {
    IncreaseStatus(nat),
    DecreaseStatus(nat),
    UpdateNewTaskName(Seq<char>),
    UpdateNewTaskAssignee(ChangeDataView),
    UpdateNewTaskMandays(Seq<char>),
    NewTask,
}

impl View for Msg {
    type V = MsgView;

    open spec fn view(&self) -> MsgView {
        match self {
            Msg::IncreaseStatus(idx) => MsgView::IncreaseStatus(*idx as nat),
            Msg::DecreaseStatus(idx) => MsgView::DecreaseStatus(*idx as nat),
            Msg::UpdateNewTaskName(text) => MsgView::UpdateNewTaskName(text@),
            Msg::UpdateNewTaskAssignee(change) => MsgView::UpdateNewTaskAssignee(change@),
            Msg::UpdateNewTaskMandays(text) => MsgView::UpdateNewTaskMandays(text@),
            Msg::NewTask => MsgView::NewTask,
        }
    }
}

impl MsgView {
    /// The message moves a task between statuses and does nothing else.
    pub open spec fn is_status_move(self) -> bool {
        self is IncreaseStatus || self is DecreaseStatus
    }
}

/// Which message a text field sends when its text changes.
#[derive(Clone, Copy, Debug, PartialEq, Eq)]
pub enum TextHandler {
    /// `Msg::UpdateNewTaskName` with the text.
    NewTaskName,
    /// `Msg::UpdateNewTaskMandays` with the text.
    NewTaskMandays,
}

/// Which message a selection control sends when it reports a change.
#[derive(Clone, Copy, Debug, PartialEq, Eq)]
pub enum ChangeHandler {
    /// `Msg::UpdateNewTaskAssignee` with the change.
    NewTaskAssignee,
}

impl TextHandler {
    /// The message for the text `text`.
    pub open spec fn message_of(self, text: Seq<char>) -> MsgView {
        match self {
            TextHandler::NewTaskName => MsgView::UpdateNewTaskName(text),
            TextHandler::NewTaskMandays => MsgView::UpdateNewTaskMandays(text),
        }
    }

    /// The message to send now that the field holds `text`.
    pub fn message(self, text: String) -> (msg: Msg)
        ensures
            msg@ == self.message_of(text@),
    {
        match self {
            TextHandler::NewTaskName => Msg::UpdateNewTaskName(text),
            TextHandler::NewTaskMandays => Msg::UpdateNewTaskMandays(text),
        }
    }
}

impl ChangeHandler {
    /// The message for the change `change`.
    pub open spec fn message_of(self, change: ChangeDataView) -> MsgView {
        match self {
            ChangeHandler::NewTaskAssignee => MsgView::UpdateNewTaskAssignee(change),
        }
    }

    /// The message to send now that the control has reported `change`.
    pub fn message(self, change: ChangeData) -> (msg: Msg)
        ensures
            msg@ == self.message_of(change@),
    {
        match self {
            ChangeHandler::NewTaskAssignee => Msg::UpdateNewTaskAssignee(change),
        }
    }
}

} // verus!
