use done_details::details::{Command, Details, Message};
use done_details::selector::Entity;
use done_details::task::{Priority, Status, SubTask, Task};

fn sample_task() -> Task {
    Task {
        id: "task-1".to_string(),
        title: "Groceries".to_string(),
        favorite: false,
        sub_tasks: vec![
            SubTask { title: "Milk".to_string(), status: Status::NotStarted },
            SubTask { title: "Bread".to_string(), status: Status::Completed },
        ],
    }
}

fn pane_with_task() -> Details {
    let mut details = Details::new();
    details.task = Some(sample_task());
    details
}

#[test]
fn new_shows_no_task() {
    let details = Details::new();
    assert!(details.task.is_none());
    assert!(details.view().is_none());
}

#[test]
fn new_offers_three_priorities_low_to_high() {
    let details = Details::new();
    let model = &details.priority_model;
    assert_eq!(model.len(), 3);
    assert_eq!(model.data(Entity(0)), Some(Priority::Low));
    assert_eq!(model.data(Entity(1)), Some(Priority::Normal));
    assert_eq!(model.data(Entity(2)), Some(Priority::High));
    assert_eq!(model.data(Entity(3)), None);
    assert_eq!(model.active(), None);
}

#[test]
fn icon_names_follow_priority() {
    assert_eq!(Priority::Low.icon_name(), "cosmic-applet-battery-level-10-symbolic");
    assert_eq!(Priority::Normal.icon_name(), "cosmic-applet-battery-level-50-symbolic");
    assert_eq!(Priority::High.icon_name(), "cosmic-applet-battery-level-100-symbolic");
}

#[test]
fn rename_without_task_does_nothing() {
    let mut details = Details::new();
    let commands = details.update(Message::Rename("New".to_string()));
    assert!(commands.is_empty());
    assert!(details.task.is_none());
}

#[test]
fn rename_edits_title_and_reports_it() {
    let mut details = pane_with_task();
    let commands = details.update(Message::Rename("Shopping".to_string()));
    let task = details.task.as_ref().unwrap();
    assert_eq!(task.title, "Shopping");
    assert_eq!(task.id, "task-1");
    assert_eq!(task.sub_tasks.len(), 2);
    assert_eq!(commands.len(), 1);
    match &commands[0] {
        Command::Rename(id, title) => {
            assert_eq!(id, "task-1");
            assert_eq!(title, "Shopping");
        }
        other => panic!("unexpected command {:?}", other),
    }
}

#[test]
fn favorite_sets_flag_and_reports_it() {
    let mut details = pane_with_task();
    let commands = details.update(Message::Favorite(true));
    assert!(details.task.as_ref().unwrap().favorite);
    assert_eq!(commands.len(), 1);
    assert!(matches!(&commands[0], Command::Favorite(id, true) if id == "task-1"));
    let commands = details.update(Message::Favorite(false));
    assert!(!details.task.as_ref().unwrap().favorite);
    assert!(matches!(&commands[0], Command::Favorite(id, false) if id == "task-1"));
}

#[test]
fn favorite_without_task_does_nothing() {
    let mut details = Details::new();
    assert!(details.update(Message::Favorite(true)).is_empty());
    assert!(details.task.is_none());
}

#[test]
fn delete_and_complete_emit_nothing() {
    let mut details = pane_with_task();
    assert!(details.update(Message::Delete("task-1".to_string())).is_empty());
    assert!(details.update(Message::Complete(true)).is_empty());
    let task = details.task.as_ref().unwrap();
    assert_eq!(task.title, "Groceries");
    assert!(!task.favorite);
}

#[test]
fn priority_activate_selects_and_reports() {
    let mut details = pane_with_task();
    let commands = details.update(Message::PriorityActivate(Entity(2)));
    assert_eq!(details.priority_model.active(), Some(Entity(2)));
    assert_eq!(commands.len(), 1);
    assert!(matches!(&commands[0], Command::PriorityActivate(id, Priority::High) if id == "task-1"));
}

#[test]
fn priority_activate_without_task_only_selects() {
    let mut details = Details::new();
    let commands = details.update(Message::PriorityActivate(Entity(0)));
    assert!(commands.is_empty());
    assert_eq!(details.priority_model.active(), Some(Entity(0)));
}

#[test]
fn priority_activate_unknown_entity_changes_nothing() {
    let mut details = pane_with_task();
    details.update(Message::PriorityActivate(Entity(1)));
    let commands = details.update(Message::PriorityActivate(Entity(9)));
    assert!(commands.is_empty());
    assert_eq!(details.priority_model.active(), Some(Entity(1)));
}

#[test]
fn complete_sub_task_sets_status_and_sends_task() {
    let mut details = pane_with_task();
    let commands = details.update(Message::CompleteSubTask(0, true));
    let task = details.task.as_ref().unwrap();
    assert_eq!(task.sub_tasks[0].status, Status::Completed);
    assert_eq!(task.sub_tasks[0].title, "Milk");
    assert_eq!(task.sub_tasks[1].status, Status::Completed);
    assert_eq!(commands.len(), 1);
    match &commands[0] {
        Command::Update(sent) => {
            assert_eq!(sent.id, "task-1");
            assert_eq!(sent.title, "Groceries");
            assert_eq!(sent.sub_tasks.len(), 2);
            assert_eq!(sent.sub_tasks[0].status, Status::Completed);
            assert_eq!(sent.sub_tasks[1].title, "Bread");
        }
        other => panic!("unexpected command {:?}", other),
    }
}

#[test]
fn uncomplete_sub_task_resets_status() {
    let mut details = pane_with_task();
    let commands = details.update(Message::CompleteSubTask(1, false));
    let task = details.task.as_ref().unwrap();
    assert_eq!(task.sub_tasks[1].status, Status::NotStarted);
    assert_eq!(task.sub_tasks[0].status, Status::NotStarted);
    assert!(matches!(&commands[0], Command::Update(sent) if sent.sub_tasks[1].status == Status::NotStarted));
}

#[test]
fn complete_sub_task_without_task_does_nothing() {
    let mut details = Details::new();
    assert!(details.update(Message::CompleteSubTask(4, true)).is_empty());
}

#[test]
fn view_lists_title_favorite_and_checklist() {
    let mut details = pane_with_task();
    details.update(Message::Favorite(true));
    let pane = details.view().unwrap();
    assert_eq!(pane.title, "Groceries");
    assert!(pane.favorite);
    assert_eq!(pane.sub_tasks.len(), 2);
    assert_eq!(pane.sub_tasks[0].index, 0);
    assert_eq!(pane.sub_tasks[0].title, "Milk");
    assert!(!pane.sub_tasks[0].completed);
    assert_eq!(pane.sub_tasks[1].index, 1);
    assert_eq!(pane.sub_tasks[1].title, "Bread");
    assert!(pane.sub_tasks[1].completed);
}

#[test]
fn view_of_task_without_sub_tasks_has_empty_checklist() {
    let mut details = Details::new();
    let mut task = sample_task();
    task.sub_tasks.clear();
    details.task = Some(task);
    let pane = details.view().unwrap();
    assert!(pane.sub_tasks.is_empty());
}

#[test]
fn task_clone_keeps_every_field() {
    let task = sample_task();
    let copy = task.clone();
    assert_eq!(copy.id, task.id);
    assert_eq!(copy.title, task.title);
    assert_eq!(copy.favorite, task.favorite);
    assert_eq!(copy.sub_tasks.len(), 2);
    assert_eq!(copy.sub_tasks[1].title, "Bread");
    assert_eq!(copy.sub_tasks[1].status, Status::Completed);
}
