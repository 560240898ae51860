//! The figures reported over the todos that are not archived.
use vstd::prelude::*;
use crate::table::{rows_view, Stored};

verus! {

/// The number of todos that fall under one label of a distribution.
#[derive(Clone, Debug, PartialEq)]
pub struct GroupCount {
    pub label: String,
    pub count: u64,
}

/// The value of a [`GroupCount`].
pub ghost struct GroupCountView {
    pub label: Seq<char>,
    pub count: u64,
}

impl View for GroupCount {
    type V = GroupCountView;

    open spec fn view(&self) -> GroupCountView {
        GroupCountView {
            label: self.label@,
            count: self.count,
        }
    }
}

impl Stored for GroupCount {
    fn dup(&self) -> (r: GroupCount) {
        GroupCount {
            label: self.label.clone(),
            count: self.count,
        }
    }
}

/// Counts over the todos that are not archived.
#[derive(Clone, Debug, PartialEq)]
pub struct TodoStats {
    pub total: u64,
    pub completed: u64,
    /// `total` less `completed`.
    pub pending: u64,
    pub in_progress: u64,
    pub blocked: u64,
    /// Open todos due before today.
    pub overdue: u64,
    /// Todos due today, completed or not.
    pub due_today: u64,
    /// Todos due within the seven days that start today, completed or not.
    pub due_this_week: u64,
    /// Todos per priority; `none` stands for no priority.
    pub by_priority: Vec<GroupCount>,
    /// Todos per project; `none` stands for no project.
    pub by_project: Vec<GroupCount>,
    /// Todos per assignee; `unassigned` stands for no assignee.
    pub by_assignee: Vec<GroupCount>,
}

/// The value of a [`TodoStats`].
pub ghost struct TodoStatsView {
    pub total: u64,
    pub completed: u64,
    pub pending: u64,
    pub in_progress: u64,
    pub blocked: u64,
    pub overdue: u64,
    pub due_today: u64,
    pub due_this_week: u64,
    pub by_priority: Seq<GroupCountView>,
    pub by_project: Seq<GroupCountView>,
    pub by_assignee: Seq<GroupCountView>,
}

impl View for TodoStats {
    type V = TodoStatsView;

    open spec fn view(&self) -> TodoStatsView {
        TodoStatsView {
            total: self.total,
            completed: self.completed,
            pending: self.pending,
            in_progress: self.in_progress,
            blocked: self.blocked,
            overdue: self.overdue,
            due_today: self.due_today,
            due_this_week: self.due_this_week,
            by_priority: rows_view(self.by_priority@),
            by_project: rows_view(self.by_project@),
            by_assignee: rows_view(self.by_assignee@),
        }
    }
}

} // verus!
