//! Figures over the todos that are not archived: counts by state and by due date, and
//! the distribution over priorities, projects and assignees.
use vstd::prelude::*;
use crate::database::Database;
use crate::error::StoreError;
use crate::fields::or_kept;
use crate::ident::{day_after, day_after_text, DAY_FORMAT, today_text, WEEK_DAYS};
use crate::model::stats::{GroupCount, GroupCountView, TodoStats, TodoStatsView};
use crate::model::todo::{TodoRow, TodoRowView};
use crate::ordering::{count_marked, count_true};
use crate::table::rows_view;
use crate::text::{
    chars_of,
    lemma_text_lt_asymmetric,
    lemma_text_lt_connected,
    text_before,
    text_le,
    text_lt,
    text_same,
};

verus! {

/// A count over the todos.
#[derive(Clone, Copy, Debug, PartialEq, Eq, Structural)]
pub enum Metric {
    /// All todos.
    Total,
    /// The completed todos.
    Completed,
    /// The todos whose status is `in_progress`.
    InProgress,
    /// The todos whose status is `blocked`.
    Blocked,
    /// The open todos that were due before today.
    Overdue,
    /// The open todos that are due today.
    DueToday,
    /// The open todos that are due from today to the end of the week's window.
    DueThisWeek,
}

/// An attribute by which the todos are grouped.
#[derive(Clone, Copy, Debug, PartialEq, Eq, Structural)]
pub enum Dimension {
    Priority,
    Project,
    Assignee,
}

/// Whether a todo counts toward `metric`, where today is the day `today` and the
/// week's window ends before the day `week_end`. An archived todo counts toward
/// nothing; a todo without a due date is neither overdue nor due; a completed todo is
/// not overdue, and is due like any other. Days are compared as texts.
pub open spec fn counts_toward(
    row: TodoRowView,
    metric: Metric,
    today: Seq<char>,
    week_end: Seq<char>,
) -> bool {
    !row.archived && match metric {
        Metric::Total => true,
        Metric::Completed => row.completed,
        Metric::InProgress => row.status == "in_progress"@,
        Metric::Blocked => row.status == "blocked"@,
        Metric::Overdue => !row.completed && match row.due_date {
            Some(due) => text_lt(due, today),
            None => false,
        },
        Metric::DueToday => row.due_date == Some(today),
        Metric::DueThisWeek => match row.due_date {
            Some(due) => text_le(today, due) && text_lt(due, week_end),
            None => false,
        },
    }
}

/// The day before which the week's window ends, where today is the day `today`: the
/// seventh day after it, and `today` itself, which leaves the window empty, where that
/// day cannot be had.
pub open spec fn week_end_of(today: Seq<char>) -> Seq<char> {
    match day_after(today, WEEK_DAYS) {
        Some(day) => day,
        None => today,
    }
}

/// For each todo, whether it counts toward `metric`.
pub open spec fn metric_mask(
    todos: Seq<TodoRowView>,
    metric: Metric,
    today: Seq<char>,
    week_end: Seq<char>,
) -> Seq<bool> {
    Seq::new(todos.len(), |i: int| counts_toward(todos[i], metric, today, week_end))
}

/// The number of todos that count toward `metric`.
pub open spec fn tally(
    todos: Seq<TodoRowView>,
    metric: Metric,
    today: Seq<char>,
    week_end: Seq<char>,
) -> nat {
    count_true(metric_mask(todos, metric, today, week_end))
}

/// The label under which a todo falls in a distribution: its priority, project or
/// assignee, and a fixed label where it has none.
pub open spec fn label_of(row: TodoRowView, by: Dimension) -> Seq<char> {
    match by {
        Dimension::Priority => or_kept(row.priority, "none"@),
        Dimension::Project => or_kept(row.project_id, "none"@),
        Dimension::Assignee => or_kept(row.assignee, "unassigned"@),
    }
}

/// For each todo, whether it is not archived and falls under `label`.
pub open spec fn label_mask(todos: Seq<TodoRowView>, by: Dimension, label: Seq<char>) -> Seq<bool> {
    Seq::new(todos.len(), |i: int| !todos[i].archived && label_of(todos[i], by) == label)
}

/// The number of todos that are not archived and fall under `label`.
pub open spec fn label_count(todos: Seq<TodoRowView>, by: Dimension, label: Seq<char>) -> nat {
    count_true(label_mask(todos, by, label))
}

/// Some entry of `groups` has the label `label`.
pub open spec fn has_label(groups: Seq<GroupCountView>, label: Seq<char>) -> bool {
    exists|g: int| 0 <= g < groups.len() && (#[trigger] groups[g]).label == label
}

/// For each todo, whether it is not archived.
pub open spec fn open_mask(todos: Seq<TodoRowView>) -> Seq<bool> {
    Seq::new(todos.len(), |i: int| !todos[i].archived)
}

/// The sum of the counts of `groups`.
pub open spec fn counted(groups: Seq<GroupCountView>) -> nat
    decreases groups.len(),
{
    if groups.len() == 0 {
        0
    } else {
        counted(groups.drop_last()) + groups.last().count as nat
    }
}

/// `groups` is the distribution of the todos that are not archived over `by`: no label
/// stands twice, each entry counts the todos under its label and counts at least one,
/// the label of every such todo has an entry, and the counts add up to the number of
/// such todos.
pub open spec fn is_distribution(
    groups: Seq<GroupCountView>,
    todos: Seq<TodoRowView>,
    by: Dimension,
) -> bool {
    &&& forall|g: int, h: int|
        0 <= g < h < groups.len() ==> (#[trigger] groups[g]).label != (#[trigger] groups[h]).label
    &&& forall|g: int|
        0 <= g < groups.len() ==> (#[trigger] groups[g]).count > 0 && groups[g].count == label_count(
            todos,
            by,
            groups[g].label,
        )
    &&& forall|i: int|
        0 <= i < todos.len() && !(#[trigger] todos[i]).archived ==> has_label(
            groups,
            label_of(todos[i], by),
        )
    &&& counted(groups) == count_true(open_mask(todos))
}

/// `stats` are the figures of `todos`, where today is the day `today` and the week's
/// window ends before the day `week_end`.
pub open spec fn is_stats_of(
    stats: TodoStatsView,
    todos: Seq<TodoRowView>,
    today: Seq<char>,
    week_end: Seq<char>,
) -> bool {
    &&& stats.total == tally(todos, Metric::Total, today, week_end)
    &&& stats.completed == tally(todos, Metric::Completed, today, week_end)
    &&& stats.pending == stats.total - stats.completed
    &&& stats.in_progress == tally(todos, Metric::InProgress, today, week_end)
    &&& stats.blocked == tally(todos, Metric::Blocked, today, week_end)
    &&& stats.overdue == tally(todos, Metric::Overdue, today, week_end)
    &&& stats.due_today == tally(todos, Metric::DueToday, today, week_end)
    &&& stats.due_this_week == tally(todos, Metric::DueThisWeek, today, week_end)
    &&& is_distribution(stats.by_priority, todos, Dimension::Priority)
    &&& is_distribution(stats.by_project, todos, Dimension::Project)
    &&& is_distribution(stats.by_assignee, todos, Dimension::Assignee)
}

/// Raising one count by one raises the sum by one.
pub proof fn lemma_counted_raise(groups: Seq<GroupCountView>, at: int, raised: GroupCountView)
    requires
        0 <= at < groups.len(),
        raised.count == groups[at].count + 1,
    ensures
        counted(groups.update(at, raised)) == counted(groups) + 1,
    decreases groups.len(),
{
    let next = groups.update(at, raised);
    if at == groups.len() - 1 {
        assert(next.drop_last() =~= groups.drop_last());
    } else {
        lemma_counted_raise(groups.drop_last(), at, raised);
        assert(next.drop_last() =~= groups.drop_last().update(at, raised));
    }
}

/// A mask that holds nowhere counts nothing.
pub proof fn lemma_count_none(mask: Seq<bool>)
    requires
        forall|i: int| 0 <= i < mask.len() ==> !#[trigger] mask[i],
    ensures
        count_true(mask) == 0,
    decreases mask.len(),
{
    if mask.len() > 0 {
        let front = mask.drop_last();
        lemma_count_none(front);
    }
}

/// A mask that holds only where another one holds counts no more than that one.
pub proof fn lemma_count_within(inner: Seq<bool>, outer: Seq<bool>)
    requires
        inner.len() == outer.len(),
        forall|i: int| 0 <= i < inner.len() && #[trigger] inner[i] ==> outer[i],
    ensures
        count_true(inner) <= count_true(outer),
        count_true(outer) <= outer.len(),
    decreases inner.len(),
{
    if inner.len() > 0 {
        let a = inner.drop_last();
        let b = outer.drop_last();
        lemma_count_within(a, b);
    }
}

/// Whether a stored todo counts toward `metric`.
fn counts(row: &TodoRow, metric: Metric, today: &Vec<char>, week_end: &Vec<char>) -> (hit: bool)
    ensures
        hit == counts_toward(row@, metric, today@, week_end@),
{
    if row.archived {
        return false;
    }
    match metric {
        Metric::Total => true,
        Metric::Completed => row.completed,
        Metric::InProgress => row.status == "in_progress".to_owned(),
        Metric::Blocked => row.status == "blocked".to_owned(),
        Metric::Overdue => {
            if row.completed {
                return false;
            }
            match &row.due_date {
                Some(due) => {
                    let due = chars_of(due.as_str());
                    text_before(&due, today)
                },
                None => false,
            }
        },
        Metric::DueToday => {
            match &row.due_date {
                Some(due) => {
                    let due = chars_of(due.as_str());
                    text_same(&due, today)
                },
                None => false,
            }
        },
        Metric::DueThisWeek => {
            match &row.due_date {
                Some(due) => {
                    let due = chars_of(due.as_str());
                    proof {
                        lemma_text_lt_connected(due@, today@);
                        lemma_text_lt_asymmetric(due@, today@);
                    }
                    !text_before(&due, today) && text_before(&due, week_end)
                },
                None => false,
            }
        },
    }
}

/// The label under which a stored todo falls.
fn label_for(row: &TodoRow, by: Dimension) -> (label: String)
    ensures
        label@ == label_of(row@, by),
{
    match by {
        Dimension::Priority => match &row.priority {
            Some(p) => p.clone(),
            None => "none".to_owned(),
        },
        Dimension::Project => match &row.project_id {
            Some(p) => p.clone(),
            None => "none".to_owned(),
        },
        Dimension::Assignee => match &row.assignee {
            Some(a) => a.clone(),
            None => "unassigned".to_owned(),
        },
    }
}

impl Database {
    /// The number of todos that count toward `metric`.
    fn count_todos(&self, metric: Metric, today: &Vec<char>, week_end: &Vec<char>) -> (n: u64)
        ensures
            n == tally(self@.todos, metric, today@, week_end@),
    {
        let mut mask: Vec<bool> = Vec::new();
        let mut i: usize = 0;
        while i < self.todos.len()
            invariant
                i <= self.todos.len(),
                mask.len() == i,
                forall|j: int|
                    0 <= j < i ==> mask@[j] == counts_toward(self@.todos[j], metric, today@, week_end@),
            decreases self.todos.len() - i,
        {
            mask.push(counts(&self.todos[i], metric, today, week_end));
            i += 1;
        }
        assert(mask@ =~= metric_mask(self@.todos, metric, today@, week_end@));
        count_marked(&mask)
    }

    /// The distribution of the todos that are not archived over `by`.
    #[verifier::spinoff_prover]
    fn distribution(&self, by: Dimension) -> (groups: Vec<GroupCount>)
        ensures
            is_distribution(rows_view(groups@), self@.todos, by),
    {
        let ghost todos = self@.todos;
        let mut groups: Vec<GroupCount> = Vec::new();
        let mut i: usize = 0;
        assert(open_mask(todos.take(0)) =~= Seq::<bool>::empty());
        while i < self.todos.len()
            invariant
                i <= self.todos.len(),
                todos == self@.todos,
                is_distribution(rows_view(groups@), todos.take(i as int), by),
                forall|g: int| 0 <= g < groups.len() ==> (#[trigger] groups@[g]).count <= i,
            decreases self.todos.len() - i,
        {
            let ghost seen = todos.take(i as int);
            let ghost next = todos.take(i + 1);
            let ghost before = rows_view(groups@);
            let row = &self.todos[i];
            proof {
                assert(next.drop_last() =~= seen);
                assert(next.last() == todos[i as int]);
                assert forall|label: Seq<char>| #[trigger]
                    label_mask(next, by, label).drop_last() =~= label_mask(seen, by, label) by {}
                assert(open_mask(next).drop_last() =~= open_mask(seen));
                assert forall|g: int| 0 <= g < before.len() implies (#[trigger] before[g]).count
                    == groups@[g].count by {}
            }
            if !row.archived {
                let label = label_for(row, by);
                let mut at: usize = 0;
                while at < groups.len() && groups[at].label != label
                    invariant
                        at <= groups.len(),
                        before == rows_view(groups@),
                        forall|g: int| 0 <= g < at ==> (#[trigger] before[g]).label != label@,
                    decreases groups.len() - at,
                {
                    at += 1;
                }
                if at < groups.len() {
                    let count = groups[at].count + 1;
                    groups.set(at, GroupCount { label: label, count: count });
                    proof {
                        let after = rows_view(groups@);
                        assert(after =~= before.update(
                            at as int,
                            GroupCountView { label: label@, count: count },
                        ));
                        lemma_counted_raise(
                            before,
                            at as int,
                            GroupCountView { label: label@, count: count },
                        );
                        assert forall|g: int| 0 <= g < after.len() implies (#[trigger] after[g]).count
                            > 0 && after[g].count == label_count(next, by, after[g].label) by {
                            assert(label_mask(next, by, after[g].label).drop_last() =~= label_mask(
                                seen,
                                by,
                                after[g].label,
                            ));
                            assert(before[g].count == label_count(seen, by, before[g].label));
                            if g != at {
                                if g < at {
                                    assert(before[g].label != before[at as int].label);
                                } else {
                                    assert(before[at as int].label != before[g].label);
                                }
                            }
                        }
                        assert forall|g: int, h: int| 0 <= g < h < after.len() implies (
                        #[trigger] after[g]).label != (#[trigger] after[h]).label by {
                            assert(before[g].label != before[h].label);
                        }
                        assert forall|r: int| 0 <= r < next.len() && !(#[trigger] next[r]).archived implies has_label(
                            after,
                            label_of(next[r], by),
                        ) by {
                            if r < seen.len() {
                                assert(next[r] == seen[r]);
                                assert(has_label(before, label_of(seen[r], by)));
                                let g = choose|g: int|
                                    0 <= g < before.len() && (#[trigger] before[g]).label == label_of(
                                        seen[r],
                                        by,
                                    );
                                assert(after[g].label == before[g].label);
                            } else {
                                assert(after[at as int].label == label@);
                            }
                        }
                        assert forall|g: int| 0 <= g < groups.len() implies (#[trigger] groups@[g]).count
                            <= i + 1 by {
                            assert(after[g].count == groups@[g].count);
                            if g != at {
                                assert(before[g].count == after[g].count);
                            }
                        }
                    }
                } else {
                    groups.push(GroupCount { label: label, count: 1 });
                    proof {
                        let after = rows_view(groups@);
                        assert(after =~= before.push(GroupCountView { label: label@, count: 1 }));
                        assert(after.drop_last() =~= before);
                        let m = label_mask(seen, by, label@);
                        assert forall|r: int| 0 <= r < m.len() implies !#[trigger] m[r] by {
                            if m[r] {
                                assert(!seen[r].archived);
                                assert(has_label(before, label_of(seen[r], by)));
                            }
                        }
                        lemma_count_none(m);
                        assert forall|g: int| 0 <= g < after.len() implies (#[trigger] after[g]).count
                            > 0 && after[g].count == label_count(next, by, after[g].label) by {
                            assert(label_mask(next, by, after[g].label).drop_last() =~= label_mask(
                                seen,
                                by,
                                after[g].label,
                            ));
                            if g < before.len() {
                                assert(after[g] == before[g]);
                                assert(before[g].count == label_count(seen, by, before[g].label));
                            }
                        }
                        assert forall|g: int, h: int| 0 <= g < h < after.len() implies (
                        #[trigger] after[g]).label != (#[trigger] after[h]).label by {
                            assert(after[g] == before[g]);
                            if h < before.len() {
                                assert(after[h] == before[h]);
                            }
                        }
                        assert forall|r: int| 0 <= r < next.len() && !(#[trigger] next[r]).archived implies has_label(
                            after,
                            label_of(next[r], by),
                        ) by {
                            if r < seen.len() {
                                assert(next[r] == seen[r]);
                                assert(has_label(before, label_of(seen[r], by)));
                                let g = choose|g: int|
                                    0 <= g < before.len() && (#[trigger] before[g]).label == label_of(
                                        seen[r],
                                        by,
                                    );
                                assert(after[g] == before[g]);
                            } else {
                                assert(after[before.len() as int].label == label@);
                            }
                        }
                        assert forall|g: int| 0 <= g < groups.len() implies (#[trigger] groups@[g]).count
                            <= i + 1 by {
                            assert(after[g].count == groups@[g].count);
                            if g < before.len() {
                                assert(after[g] == before[g]);
                            }
                        }
                    }
                }
            } else {
                proof {
                    assert forall|g: int| 0 <= g < before.len() implies (#[trigger] before[g]).count
                        > 0 && before[g].count == label_count(next, by, before[g].label) by {
                        assert(label_mask(next, by, before[g].label).drop_last() =~= label_mask(
                            seen,
                            by,
                            before[g].label,
                        ));
                    }
                    assert forall|r: int| 0 <= r < next.len() && !(#[trigger] next[r]).archived implies has_label(
                        before,
                        label_of(next[r], by),
                    ) by {
                        assert(next[r] == seen[r]);
                    }
                }
            }
            i += 1;
        }
        assert(todos.take(self.todos.len() as int) =~= todos);
        groups
    }

    /// The figures over the todos that are not archived, where today is the day `today`
    /// and the week's window ends before the day `week_end`.
    pub fn todo_stats_on(&self, today: &str, week_end: &str) -> (r: Result<TodoStats, StoreError>)
        requires
            self.wf(),
        ensures
            r matches Ok(stats) && is_stats_of(stats@, self@.todos, today@, week_end@)
                && stats.completed + stats.pending == stats.total,
    {
        let today = chars_of(today);
        let week_end = chars_of(week_end);
        let total = self.count_todos(Metric::Total, &today, &week_end);
        let completed = self.count_todos(Metric::Completed, &today, &week_end);
        proof {
            lemma_count_within(
                metric_mask(self@.todos, Metric::Completed, today@, week_end@),
                metric_mask(self@.todos, Metric::Total, today@, week_end@),
            );
        }
        let stats = TodoStats {
            total: total,
            completed: completed,
            pending: total - completed,
            in_progress: self.count_todos(Metric::InProgress, &today, &week_end),
            blocked: self.count_todos(Metric::Blocked, &today, &week_end),
            overdue: self.count_todos(Metric::Overdue, &today, &week_end),
            due_today: self.count_todos(Metric::DueToday, &today, &week_end),
            due_this_week: self.count_todos(Metric::DueThisWeek, &today, &week_end),
            by_priority: self.distribution(Dimension::Priority),
            by_project: self.distribution(Dimension::Project),
            by_assignee: self.distribution(Dimension::Assignee),
        };
        Ok(stats)
    }

    /// The figures over the todos that are not archived, as of the current day in UTC.
    /// The week's window is today and the six days after it: it ends before the day
    /// that chrono gives as the seventh after today.
    pub fn get_todo_stats(&self) -> (r: Result<TodoStats, StoreError>)
        requires
            self.wf(),
        ensures
            r matches Ok(stats) && stats.completed + stats.pending == stats.total && exists|
                today: Seq<char>,
            | is_stats_of(stats@, self@.todos, today, week_end_of(today)),
    {
        let today = today_text(DAY_FORMAT);
        let then = day_after_text(today.as_str(), WEEK_DAYS, DAY_FORMAT);
        assert(then.deep_view() == day_after(today@, WEEK_DAYS));
        let week_end = match then {
            Some(day) => day,
            None => today.clone(),
        };
        assert(week_end@ == week_end_of(today@));
        let r = self.todo_stats_on(today.as_str(), week_end.as_str());
        assert(r matches Ok(stats) && is_stats_of(stats@, self@.todos, today@, week_end_of(today@)));
        r
    }
}

} // verus!
