//! The task data that the detail pane reads and edits.

use vstd::prelude::*;

verus! {

/// How urgent a task is.
#[derive(Clone, Copy, Debug, PartialEq, Eq, Structural, Hash)]
pub enum Priority {
    Low,
    Normal,
    High,
}

impl Priority {
    /// The name of the icon that stands for this priority in the selector:
    /// a battery a tenth, half or wholly full.
    pub fn icon_name(self) -> (r: &'static str)
        ensures
            r@ == match self {
                Priority::Low => "cosmic-applet-battery-level-10-symbolic"@,
                Priority::Normal => "cosmic-applet-battery-level-50-symbolic"@,
                Priority::High => "cosmic-applet-battery-level-100-symbolic"@,
            },
    {
        match self {
            Priority::Low => "cosmic-applet-battery-level-10-symbolic",
            Priority::Normal => "cosmic-applet-battery-level-50-symbolic",
            Priority::High => "cosmic-applet-battery-level-100-symbolic",
        }
    }
}

/// Whether a task or a sub-task has been done.
#[derive(Clone, Copy, Debug, PartialEq, Eq, Structural, Hash)]
pub enum Status {
    NotStarted,
    Completed,
}

/// The status that a checklist box stands for.
pub open spec fn status_of(completed: bool) -> Status {
    if completed {
        Status::Completed
    } else {
        Status::NotStarted
    }
}

/// One entry of a task's checklist.
#[derive(Debug)]
pub struct SubTask {
    pub title: String,
    pub status: Status,
}

/// A to-do task, as far as the detail pane reads it.
#[derive(Debug)]
pub struct Task {
    pub id: String,
    pub title: String,
    pub favorite: bool,
    pub sub_tasks: Vec<SubTask>,
}

/// What a sub-task holds, as plain values.
pub struct SubTaskView {
    pub title: Seq<char>,
    pub status: Status,
}

/// What a task holds, as plain values.
pub struct TaskView {
    pub id: Seq<char>,
    pub title: Seq<char>,
    pub favorite: bool,
    pub sub_tasks: Seq<SubTaskView>,
}

impl View for SubTask {
    type V = SubTaskView;

    open spec fn view(&self) -> SubTaskView {
        SubTaskView { title: self.title@, status: self.status }
    }
}

impl View for Task {
    type V = TaskView;

    open spec fn view(&self) -> TaskView {
        TaskView {
            id: self.id@,
            title: self.title@,
            favorite: self.favorite,
            sub_tasks: self.sub_tasks@.map_values(|s: SubTask| s@),
        }
    }
}

impl Clone for SubTask {
    fn clone(&self) -> (r: Self)
        ensures
            r == *self,
    {
        SubTask { title: self.title.clone(), status: self.status }
    }
}

impl Clone for Task {
    fn clone(&self) -> (r: Self)
        ensures
            r@ == self@,
    {
        let sub_tasks = self.sub_tasks.clone();
        assert(sub_tasks@ =~= self.sub_tasks@);
        Task {
            id: self.id.clone(),
            title: self.title.clone(),
            favorite: self.favorite,
            sub_tasks,
        }
    }
}

} // verus!
