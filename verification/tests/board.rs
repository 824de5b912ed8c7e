use task_board::board::{view_column, view_header, view_task, Card, Column, Header};
use task_board::model::Model;
use task_board::msg::{ChangeData, ChangeHandler, Msg, TextHandler};
use task_board::task::Task;

fn task(name: &str, assignee: &str, mandays: u32, status: u32) -> Task {
    Task { name: name.to_string(), assignee: assignee.to_string(), mandays, status }
}

fn card(idx: usize, name: &str, assignee: &str, effort: &str) -> Card {
    Card {
        name: name.to_string(),
        assignee: assignee.to_string(),
        effort: effort.to_string(),
        retreat: Msg::DecreaseStatus(idx),
        advance: Msg::IncreaseStatus(idx),
    }
}

#[test]
fn view_task_shows_the_task_and_names_it_by_position() {
    let shown = view_task(17, &task("Write", "🐶", 12, 2));
    assert_eq!(shown, card(17, "Write", "🐶", "12 person-days"));
}

#[test]
fn view_task_words_the_effort() {
    assert_eq!(view_task(0, &task("a", "b", 0, 1)).effort, "0 person-days");
    assert_eq!(view_task(0, &task("a", "b", 1, 1)).effort, "1 person-days");
    assert_eq!(view_task(0, &task("a", "b", u32::MAX, 1)).effort, "4294967295 person-days");
}

#[test]
fn header_of_a_new_board() {
    let model = Model::create();
    assert_eq!(
        view_header(&model.state),
        Header {
            name: String::new(),
            name_input: TextHandler::NewTaskName,
            assignee: String::new(),
            assignees: vec!["🐱".to_string(), "🐶".to_string(), "🐹".to_string()],
            assignee_change: ChangeHandler::NewTaskAssignee,
            mandays: "0".to_string(),
            mandays_input: TextHandler::NewTaskMandays,
            submit: Msg::NewTask,
        }
    );
}

#[test]
fn header_shows_what_the_form_holds() {
    let mut model = Model::create();
    model.update(Msg::UpdateNewTaskName("Review".to_string()));
    model.update(Msg::UpdateNewTaskAssignee(ChangeData::Select("🐹".to_string())));
    model.update(Msg::UpdateNewTaskMandays("+0015".to_string()));
    let header = model.view().header;
    assert_eq!(header.name, "Review");
    assert_eq!(header.assignee, "🐹");
    assert_eq!(header.mandays, "15");
    assert_eq!(header.assignees, vec!["🐱", "🐶", "🐹"]);
    assert_eq!(header.submit, Msg::NewTask);
}

#[test]
fn handlers_make_the_messages_of_the_form() {
    assert_eq!(TextHandler::NewTaskName.message("a".to_string()), Msg::UpdateNewTaskName("a".to_string()));
    assert_eq!(TextHandler::NewTaskMandays.message("3".to_string()), Msg::UpdateNewTaskMandays("3".to_string()));
    assert_eq!(
        ChangeHandler::NewTaskAssignee.message(ChangeData::Select("🐱".to_string())),
        Msg::UpdateNewTaskAssignee(ChangeData::Select("🐱".to_string()))
    );
    assert_eq!(
        ChangeHandler::NewTaskAssignee.message(ChangeData::Files),
        Msg::UpdateNewTaskAssignee(ChangeData::Files)
    );
}

#[test]
fn the_form_drives_the_state_through_its_handlers() {
    let mut model = Model::create();
    let header = model.view().header;
    model.update(header.name_input.message("Task 5".to_string()));
    model.update(header.assignee_change.message(ChangeData::Select("🐶".to_string())));
    model.update(header.mandays_input.message("4".to_string()));
    model.update(header.submit.clone());
    assert_eq!(model.state.tasks.len(), 5);
    assert_eq!(model.state.tasks[4], task("Task 5", "🐶", 4, 1));
}

#[test]
fn board_of_a_new_board() {
    let board = Model::create().view();
    assert_eq!(
        board.columns,
        vec![
            Column {
                status: 1,
                label: "未対応".to_string(),
                count: 2,
                cards: vec![card(0, "Task 1", "🐱", "3 person-days"), card(1, "Task 2", "🐶", "2 person-days")],
            },
            Column {
                status: 2,
                label: "処理中".to_string(),
                count: 1,
                cards: vec![card(2, "Task 3", "🐱", "1 person-days")],
            },
            Column {
                status: 3,
                label: "完了".to_string(),
                count: 1,
                cards: vec![card(3, "Task 4", "🐹", "3 person-days")],
            },
        ]
    );
    assert_eq!(board.header, view_header(&Model::create().state));
}

#[test]
fn cards_keep_the_order_of_the_list_and_their_positions_in_it() {
    let tasks = vec![
        task("a", "🐱", 1, 2),
        task("b", "🐱", 2, 1),
        task("c", "🐱", 3, 2),
        task("d", "🐱", 4, 3),
        task("e", "🐱", 5, 2),
        task("f", "🐱", 6, 1),
    ];
    let doing = view_column(2, "doing", &tasks);
    assert_eq!(doing.status, 2);
    assert_eq!(doing.label, "doing");
    assert_eq!(doing.count, 3);
    assert_eq!(
        doing.cards,
        vec![
            card(0, "a", "🐱", "1 person-days"),
            card(2, "c", "🐱", "3 person-days"),
            card(4, "e", "🐱", "5 person-days"),
        ]
    );
    let todo = view_column(1, "todo", &tasks);
    assert_eq!(todo.cards, vec![card(1, "b", "🐱", "2 person-days"), card(5, "f", "🐱", "6 person-days")]);
}

#[test]
fn a_card_of_a_column_moves_the_task_it_shows() {
    let mut model = Model::create();
    let board = model.view();
    // The one card of the middle column stands for the third task of the list.
    let shown = &board.columns[1].cards[0];
    assert_eq!(shown.name, "Task 3");
    model.update(shown.advance.clone());
    assert_eq!(model.state.tasks[2].status, 3);
    assert_eq!(model.state.tasks[0].status, 1);
    model.update(shown.retreat.clone());
    model.update(shown.retreat.clone());
    assert_eq!(model.state.tasks[2].status, 1);
    let board = model.view();
    assert_eq!(board.columns[0].count, 3);
    assert_eq!(board.columns[0].cards[2].name, "Task 3");
    assert_eq!(board.columns[0].cards[2].advance, Msg::IncreaseStatus(2));
}

#[test]
fn a_column_without_tasks_is_empty() {
    let tasks = vec![task("a", "🐱", 1, 1), task("b", "🐱", 1, 1)];
    let done = view_column(3, "完了", &tasks);
    assert_eq!(done, Column { status: 3, label: "完了".to_string(), count: 0, cards: vec![] });
    let none = view_column(1, "未対応", &Vec::new());
    assert_eq!(none.count, 0);
    assert!(none.cards.is_empty());
}

#[test]
fn a_column_counts_as_many_tasks_as_it_shows() {
    let mut model = Model::create();
    model.update(Msg::NewTask);
    model.update(Msg::IncreaseStatus(1));
    for column in model.view().columns {
        assert_eq!(column.count, column.cards.len());
        let expected = model.state.tasks.iter().filter(|t| t.status == column.status).count();
        assert_eq!(column.count, expected);
    }
}

#[test]
fn column_counts_add_up_to_the_number_of_tasks() {
    let mut model = Model::create();
    let msgs = [
        Msg::IncreaseStatus(0),
        Msg::NewTask,
        Msg::DecreaseStatus(3),
        Msg::IncreaseStatus(4),
        Msg::IncreaseStatus(4),
        Msg::NewTask,
        Msg::DecreaseStatus(2),
        Msg::DecreaseStatus(9),
        Msg::UpdateNewTaskMandays("3".to_string()),
        Msg::NewTask,
        Msg::IncreaseStatus(6),
    ];
    let sum = |model: &Model| -> usize { model.view().columns.iter().map(|c| c.count).sum() };
    assert_eq!(sum(&model), 4);
    for msg in msgs {
        model.update(msg);
        assert_eq!(model.view().columns.len(), 3);
        assert_eq!(sum(&model), model.state.tasks.len());
    }
    assert_eq!(model.state.tasks.len(), 7);
}

#[test]
fn view_does_not_change_the_state() {
    let model = Model::create();
    let before = model.clone();
    let first = model.view();
    let second = model.view();
    assert_eq!(model, before);
    assert_eq!(first, second);
}
