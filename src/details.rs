//! The detail pane of one task: its state, and the reducer that applies a
//! user interaction to it and emits commands for the parent controller.

use vstd::prelude::*;
use crate::selector::{Entity, PriorityModel, Selection};
use crate::task::{status_of, Priority, Status, SubTask, SubTaskView, Task, TaskView};

verus! {

/// The state of the detail pane: the task shown, if any, and the priority selector.
pub struct Details {
    pub task: Option<Task>,
    pub priority_model: PriorityModel,
}

/// A user interaction with the pane.
#[derive(Debug, Clone)]
pub enum Message {
    Rename(String),
    Delete(String),
    Complete(bool),
    CompleteSubTask(usize, bool),
    Favorite(bool),
    PriorityActivate(Entity),
}

/// A request to the parent controller, naming the task by its id.
#[derive(Debug)]
pub enum Command {
    Update(Task),
    Rename(String, String),
    Delete(String),
    Complete(String, bool),
    Favorite(String, bool),
    PriorityActivate(String, Priority),
}

/// What a command holds, as plain values.
pub enum CommandView {
    Update(TaskView),
    Rename(Seq<char>, Seq<char>),
    Delete(Seq<char>),
    Complete(Seq<char>, bool),
    Favorite(Seq<char>, bool),
    PriorityActivate(Seq<char>, Priority),
}

impl View for Command {
    type V = CommandView;

    open spec fn view(&self) -> CommandView {
        match self {
            Command::Update(t) => CommandView::Update(t@),
            Command::Rename(id, title) => CommandView::Rename(id@, title@),
            Command::Delete(id) => CommandView::Delete(id@),
            Command::Complete(id, b) => CommandView::Complete(id@, *b),
            Command::Favorite(id, b) => CommandView::Favorite(id@, *b),
            Command::PriorityActivate(id, p) => CommandView::PriorityActivate(id@, *p),
        }
    }
}

/// One checklist line of the pane: the position of the sub-task, which a
/// tick reports back in `Message::CompleteSubTask`, its title, and whether
/// its box is ticked.
#[derive(Debug)]
pub struct SubTaskRow {
    pub index: usize,
    pub title: String,
    pub completed: bool,
}

/// What the pane shows of a task: its title, its favorite box and its checklist.
#[derive(Debug)]
pub struct TaskPane {
    pub title: String,
    pub favorite: bool,
    pub sub_tasks: Vec<SubTaskRow>,
}

/// The state of the pane, as plain values.
pub struct DetailsState {
    pub task: Option<TaskView>,
    pub selection: Selection,
}

/// The task after the sub-task at `index` was given the status that `completed` stands for.
pub open spec fn with_sub_task_status(t: TaskView, index: int, completed: bool) -> TaskView {
    TaskView {
        sub_tasks: t.sub_tasks.update(
            index,
            SubTaskView { title: t.sub_tasks[index].title, status: status_of(completed) },
        ),
        ..t
    }
}

/// Whether the pane can take `message`: a checklist entry that is ticked or
/// unticked must exist in the task shown.
pub open spec fn accepts(d: DetailsState, message: Message) -> bool {
    match message {
        Message::CompleteSubTask(i, _) => match d.task {
            Some(t) => i < t.sub_tasks.len(),
            None => true,
        },
        _ => true,
    }
}

/// The state of the pane after `message`, and the commands it emits.
///
/// Renaming and (un)favoriting edit the task shown and report the change;
/// ticking a checklist entry sets its status and sends the whole task;
/// activating a priority segment selects it and, where a task is shown and
/// the segment carries a priority, reports that priority. Without a task,
/// only the selector changes. Deleting and completing are left to the parent
/// and change nothing here.
pub open spec fn step(d: DetailsState, message: Message) -> (DetailsState, Seq<CommandView>) {
    match message {
        Message::Rename(title) => match d.task {
            Some(t) => (
                DetailsState { task: Some(TaskView { title: title@, ..t }), ..d },
                seq![CommandView::Rename(t.id, title@)],
            ),
            None => (d, seq![]),
        },
        Message::Delete(_) => (d, seq![]),
        Message::Complete(_) => (d, seq![]),
        Message::Favorite(favorite) => match d.task {
            Some(t) => (
                DetailsState { task: Some(TaskView { favorite, ..t }), ..d },
                seq![CommandView::Favorite(t.id, favorite)],
            ),
            None => (d, seq![]),
        },
        Message::PriorityActivate(entity) => {
            let selection = d.selection.activate(entity);
            let commands = match (d.task, selection.data(entity)) {
                (Some(t), Some(p)) => seq![CommandView::PriorityActivate(t.id, p)],
                _ => seq![],
            };
            (DetailsState { selection, ..d }, commands)
        },
        Message::CompleteSubTask(i, completed) => match d.task {
            Some(t) => {
                let t2 = with_sub_task_status(t, i as int, completed);
                (DetailsState { task: Some(t2), ..d }, seq![CommandView::Update(t2)])
            },
            None => (d, seq![]),
        },
    }
}

impl Details {
    /// The pane's state as plain values.
    pub open spec fn state(&self) -> DetailsState {
        DetailsState {
            task: match self.task {
                Some(t) => Some(t@),
                None => None,
            },
            selection: self.priority_model@,
        }
    }

    /// A pane that shows no task, with a selector of the three priorities,
    /// low to high, none of them active.
    pub fn new() -> (r: Self)
        ensures
            r.task is None,
            r.priority_model@.entries == seq![Priority::Low, Priority::Normal, Priority::High],
            r.priority_model@.active is None,
    {
        let entries = vec![Priority::Low, Priority::Normal, Priority::High];
        Details { task: None, priority_model: PriorityModel::from_entries(entries) }
    }

    /// Applies `message` to the pane and returns the commands it emits, in order.
    pub fn update(&mut self, message: Message) -> (commands: Vec<Command>)
        requires
            accepts(old(self).state(), message),
        ensures
            final(self).state() == step(old(self).state(), message).0,
            commands@.len() == step(old(self).state(), message).1.len(),
            forall|i: int|
                0 <= i < commands@.len() ==> #[trigger] commands@[i]@ == step(
                    old(self).state(),
                    message,
                ).1[i],
    {
        let ghost before = self.state();
        let mut commands: Vec<Command> = Vec::new();
        match message {
            Message::Rename(title) => {
                if let Some(task) = &mut self.task {
                    task.title = title.clone();
                    commands.push(Command::Rename(task.id.clone(), title));
                }
            },
            Message::Delete(_) => {},
            Message::Complete(_) => {},
            Message::Favorite(favorite) => {
                if let Some(task) = &mut self.task {
                    task.favorite = favorite;
                    commands.push(Command::Favorite(task.id.clone(), favorite));
                }
            },
            Message::PriorityActivate(entity) => {
                self.priority_model.activate(entity);
                let priority = self.priority_model.data(entity);
                if let Some(task) = &self.task {
                    if let Some(priority) = priority {
                        commands.push(Command::PriorityActivate(task.id.clone(), priority));
                    }
                }
            },
            Message::CompleteSubTask(i, completed) => {
                if let Some(task) = &mut self.task {
                    let status = if completed {
                        Status::Completed
                    } else {
                        Status::NotStarted
                    };
                    let title = task.sub_tasks[i].title.clone();
                    task.sub_tasks.set(i, SubTask { title, status });
                    commands.push(Command::Update(task.clone()));
                    assert(task.sub_tasks@.map_values(|s: SubTask| s@) =~= with_sub_task_status(
                        before.task->Some_0,
                        i as int,
                        completed,
                    ).sub_tasks);
                }
            },
        }
        commands
    }

    /// What the pane shows: nothing but its heading when no task is
    /// selected; otherwise the task's title and favorite flag, and one
    /// checklist line per sub-task, in order, ticked where it is completed.
    pub fn view(&self) -> (r: Option<TaskPane>)
        ensures
            match self.task {
                None => r is None,
                Some(t) => r matches Some(pane) && {
                    &&& pane.title@ == t.title@
                    &&& pane.favorite == t.favorite
                    &&& pane.sub_tasks@.len() == t.sub_tasks@.len()
                    &&& forall|i: int|
                        0 <= i < t.sub_tasks@.len() ==> {
                            let row = #[trigger] pane.sub_tasks@[i];
                            &&& row.index == i
                            &&& row.title@ == t.sub_tasks@[i].title@
                            &&& row.completed == (t.sub_tasks@[i].status == Status::Completed)
                        }
                },
            },
    {
        match &self.task {
            None => None,
            Some(task) => {
                let mut rows: Vec<SubTaskRow> = Vec::new();
                let mut i: usize = 0;
                while i < task.sub_tasks.len()
                    invariant
                        i <= task.sub_tasks@.len(),
                        rows@.len() == i,
                        forall|j: int|
                            0 <= j < i ==> {
                                let row = #[trigger] rows@[j];
                                &&& row.index == j
                                &&& row.title@ == task.sub_tasks@[j].title@
                                &&& row.completed == (task.sub_tasks@[j].status
                                    == Status::Completed)
                            },
                    decreases task.sub_tasks@.len() - i,
                {
                    let sub_task = &task.sub_tasks[i];
                    rows.push(
                        SubTaskRow {
                            index: i,
                            title: sub_task.title.clone(),
                            completed: sub_task.status == Status::Completed,
                        },
                    );
                    i = i + 1;
                }
                Some(TaskPane { title: task.title.clone(), favorite: task.favorite, sub_tasks: rows })
            },
        }
    }
}

} // verus!
