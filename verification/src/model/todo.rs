//! Todos: the entity with its tags and subtasks, its stored row, and the requests that act on it.
use vstd::prelude::*;
use crate::fields::copy_opt;
use crate::table::{Record, Stored};

verus! {

/// A number of hours. The store carries it and never computes with it, so it is held
/// as the bit pattern of the double-precision number.
#[derive(Clone, Copy, Debug, PartialEq, Eq, Structural)]
pub struct Hours {
    pub bits: u64,
}

/// A todo as it is handed out: with the ids of its tags and with its direct subtasks.
/// The subtasks of a subtask are not loaded, so `subtasks` is empty in each entry of
/// `subtasks`.
#[derive(Debug)]
pub struct Todo {
    pub id: String,
    pub title: String,
    pub description: Option<String>,
    /// One of `todo`, `in_progress`, `blocked`, `completed`, or any other text the caller uses.
    pub status: String,
    pub priority: Option<String>,
    /// A calendar day, written `YYYY-MM-DD`.
    pub due_date: Option<String>,
    pub estimated_hours: Option<Hours>,
    pub actual_hours: Option<Hours>,
    /// A percentage.
    pub progress: i64,
    pub assignee: Option<String>,
    pub project_id: Option<String>,
    /// The todo of which this one is a subtask.
    pub parent_id: Option<String>,
    pub recurring_config: Option<String>,
    /// The ids of the todos this one depends on.
    pub dependencies: Vec<String>,
    pub completed: bool,
    pub archived: bool,
    pub created_by: Option<String>,
    pub updated_by: Option<String>,
    /// Milliseconds since the epoch.
    pub created_at: i64,
    /// Milliseconds since the epoch.
    pub updated_at: i64,
    /// Milliseconds since the epoch.
    pub archived_at: Option<i64>,
    /// The ids of the tags attached to this todo.
    pub tags: Vec<String>,
    /// The todos whose parent this one is, oldest first.
    pub subtasks: Vec<Todo>,
}

/// The value of a [`Todo`].
pub ghost struct TodoView {
    pub id: Seq<char>,
    pub title: Seq<char>,
    pub description: Option<Seq<char>>,
    pub status: Seq<char>,
    pub priority: Option<Seq<char>>,
    pub due_date: Option<Seq<char>>,
    pub estimated_hours: Option<Hours>,
    pub actual_hours: Option<Hours>,
    pub progress: i64,
    pub assignee: Option<Seq<char>>,
    pub project_id: Option<Seq<char>>,
    pub parent_id: Option<Seq<char>>,
    pub recurring_config: Option<Seq<char>>,
    pub dependencies: Seq<Seq<char>>,
    pub completed: bool,
    pub archived: bool,
    pub created_by: Option<Seq<char>>,
    pub updated_by: Option<Seq<char>>,
    pub created_at: i64,
    pub updated_at: i64,
    pub archived_at: Option<i64>,
    pub tags: Seq<Seq<char>>,
    pub subtasks: Seq<TodoView>,
}

/// The value of a todo. The function follows the todo through its subtasks.
pub open spec fn todo_view(t: Todo) -> TodoView
    decreases t,
{
    TodoView {
        id: t.id@,
        title: t.title@,
        description: t.description.deep_view(),
        status: t.status@,
        priority: t.priority.deep_view(),
        due_date: t.due_date.deep_view(),
        estimated_hours: t.estimated_hours,
        actual_hours: t.actual_hours,
        progress: t.progress,
        assignee: t.assignee.deep_view(),
        project_id: t.project_id.deep_view(),
        parent_id: t.parent_id.deep_view(),
        recurring_config: t.recurring_config.deep_view(),
        dependencies: t.dependencies.deep_view(),
        completed: t.completed,
        archived: t.archived,
        created_by: t.created_by.deep_view(),
        updated_by: t.updated_by.deep_view(),
        created_at: t.created_at,
        updated_at: t.updated_at,
        archived_at: t.archived_at,
        tags: t.tags.deep_view(),
        subtasks: Seq::new(
            t.subtasks@.len(),
            |i: int|
                if 0 <= i < t.subtasks@.len() {
                    todo_view(t.subtasks@[i])
                } else {
                    arbitrary()
                },
        ),
    }
}

impl View for Todo {
    type V = TodoView;

    open spec fn view(&self) -> TodoView {
        todo_view(*self)
    }
}

/// A todo as it is stored: the dependency list is held as one encoded text.
#[derive(Clone, Debug, PartialEq)]
pub struct TodoRow {
    pub id: String,
    pub title: String,
    pub description: Option<String>,
    /// One of `todo`, `in_progress`, `blocked`, `completed`, or any other text the caller uses.
    pub status: String,
    pub priority: Option<String>,
    /// A calendar day, written `YYYY-MM-DD`.
    pub due_date: Option<String>,
    pub estimated_hours: Option<Hours>,
    pub actual_hours: Option<Hours>,
    /// A percentage.
    pub progress: i64,
    pub assignee: Option<String>,
    pub project_id: Option<String>,
    /// The todo of which this one is a subtask.
    pub parent_id: Option<String>,
    pub recurring_config: Option<String>,
    /// The ids of the todos this one depends on, encoded as a JSON array of strings.
    pub dependencies: String,
    pub completed: bool,
    pub archived: bool,
    pub created_by: Option<String>,
    pub updated_by: Option<String>,
    /// Milliseconds since the epoch.
    pub created_at: i64,
    /// Milliseconds since the epoch.
    pub updated_at: i64,
    /// Milliseconds since the epoch.
    pub archived_at: Option<i64>,
}

/// The value of a [`TodoRow`].
pub ghost struct TodoRowView {
    pub id: Seq<char>,
    pub title: Seq<char>,
    pub description: Option<Seq<char>>,
    pub status: Seq<char>,
    pub priority: Option<Seq<char>>,
    pub due_date: Option<Seq<char>>,
    pub estimated_hours: Option<Hours>,
    pub actual_hours: Option<Hours>,
    pub progress: i64,
    pub assignee: Option<Seq<char>>,
    pub project_id: Option<Seq<char>>,
    pub parent_id: Option<Seq<char>>,
    pub recurring_config: Option<Seq<char>>,
    pub dependencies: Seq<char>,
    pub completed: bool,
    pub archived: bool,
    pub created_by: Option<Seq<char>>,
    pub updated_by: Option<Seq<char>>,
    pub created_at: i64,
    pub updated_at: i64,
    pub archived_at: Option<i64>,
}

impl View for TodoRow {
    type V = TodoRowView;

    open spec fn view(&self) -> TodoRowView {
        TodoRowView {
            id: self.id@,
            title: self.title@,
            description: self.description.deep_view(),
            status: self.status@,
            priority: self.priority.deep_view(),
            due_date: self.due_date.deep_view(),
            estimated_hours: self.estimated_hours,
            actual_hours: self.actual_hours,
            progress: self.progress,
            assignee: self.assignee.deep_view(),
            project_id: self.project_id.deep_view(),
            parent_id: self.parent_id.deep_view(),
            recurring_config: self.recurring_config.deep_view(),
            dependencies: self.dependencies@,
            completed: self.completed,
            archived: self.archived,
            created_by: self.created_by.deep_view(),
            updated_by: self.updated_by.deep_view(),
            created_at: self.created_at,
            updated_at: self.updated_at,
            archived_at: self.archived_at,
        }
    }
}

impl Stored for TodoRow {
    fn dup(&self) -> (r: TodoRow) {
        TodoRow {
            id: self.id.clone(),
            title: self.title.clone(),
            description: copy_opt(&self.description),
            status: self.status.clone(),
            priority: copy_opt(&self.priority),
            due_date: copy_opt(&self.due_date),
            estimated_hours: self.estimated_hours,
            actual_hours: self.actual_hours,
            progress: self.progress,
            assignee: copy_opt(&self.assignee),
            project_id: copy_opt(&self.project_id),
            parent_id: copy_opt(&self.parent_id),
            recurring_config: copy_opt(&self.recurring_config),
            dependencies: self.dependencies.clone(),
            completed: self.completed,
            archived: self.archived,
            created_by: copy_opt(&self.created_by),
            updated_by: copy_opt(&self.updated_by),
            created_at: self.created_at,
            updated_at: self.updated_at,
            archived_at: self.archived_at,
        }
    }
}

impl Record for TodoRow {
    open spec fn key_of(v: TodoRowView) -> Seq<char> {
        v.id
    }

    fn key(&self) -> (k: &String) {
        &self.id
    }
}

/// What is needed to create a todo.
#[derive(Clone, Debug, PartialEq)]
pub struct CreateTodoRequest {
    pub title: String,
    pub description: Option<String>,
    /// `todo` where it is not given.
    pub status: Option<String>,
    pub priority: Option<String>,
    pub due_date: Option<String>,
    pub estimated_hours: Option<Hours>,
    pub assignee: Option<String>,
    pub project_id: Option<String>,
    pub parent_id: Option<String>,
    pub recurring_config: Option<String>,
    pub dependencies: Option<Vec<String>>,
    /// The ids of the tags to attach.
    pub tags: Option<Vec<String>>,
}

/// The value of a [`CreateTodoRequest`].
pub ghost struct CreateTodoRequestView {
    pub title: Seq<char>,
    pub description: Option<Seq<char>>,
    pub status: Option<Seq<char>>,
    pub priority: Option<Seq<char>>,
    pub due_date: Option<Seq<char>>,
    pub estimated_hours: Option<Hours>,
    pub assignee: Option<Seq<char>>,
    pub project_id: Option<Seq<char>>,
    pub parent_id: Option<Seq<char>>,
    pub recurring_config: Option<Seq<char>>,
    pub dependencies: Option<Seq<Seq<char>>>,
    pub tags: Option<Seq<Seq<char>>>,
}

impl View for CreateTodoRequest {
    type V = CreateTodoRequestView;

    open spec fn view(&self) -> CreateTodoRequestView {
        CreateTodoRequestView {
            title: self.title@,
            description: self.description.deep_view(),
            status: self.status.deep_view(),
            priority: self.priority.deep_view(),
            due_date: self.due_date.deep_view(),
            estimated_hours: self.estimated_hours,
            assignee: self.assignee.deep_view(),
            project_id: self.project_id.deep_view(),
            parent_id: self.parent_id.deep_view(),
            recurring_config: self.recurring_config.deep_view(),
            dependencies: self.dependencies.deep_view(),
            tags: self.tags.deep_view(),
        }
    }
}

/// A sparse update of the todo `id`: only the fields that are set are changed.
#[derive(Clone, Debug, PartialEq)]
pub struct UpdateTodoRequest {
    pub id: String,
    pub title: Option<String>,
    pub description: Option<String>,
    pub status: Option<String>,
    pub priority: Option<String>,
    pub due_date: Option<String>,
    pub estimated_hours: Option<Hours>,
    pub actual_hours: Option<Hours>,
    pub progress: Option<i64>,
    pub completed: Option<bool>,
    pub archived: Option<bool>,
    /// The ids of the tags that replace the ones attached so far.
    pub tags: Option<Vec<String>>,
}

/// The value of a [`UpdateTodoRequest`].
pub ghost struct UpdateTodoRequestView {
    pub id: Seq<char>,
    pub title: Option<Seq<char>>,
    pub description: Option<Seq<char>>,
    pub status: Option<Seq<char>>,
    pub priority: Option<Seq<char>>,
    pub due_date: Option<Seq<char>>,
    pub estimated_hours: Option<Hours>,
    pub actual_hours: Option<Hours>,
    pub progress: Option<i64>,
    pub completed: Option<bool>,
    pub archived: Option<bool>,
    pub tags: Option<Seq<Seq<char>>>,
}

impl View for UpdateTodoRequest {
    type V = UpdateTodoRequestView;

    open spec fn view(&self) -> UpdateTodoRequestView {
        UpdateTodoRequestView {
            id: self.id@,
            title: self.title.deep_view(),
            description: self.description.deep_view(),
            status: self.status.deep_view(),
            priority: self.priority.deep_view(),
            due_date: self.due_date.deep_view(),
            estimated_hours: self.estimated_hours,
            actual_hours: self.actual_hours,
            progress: self.progress,
            completed: self.completed,
            archived: self.archived,
            tags: self.tags.deep_view(),
        }
    }
}

/// A search over todos. All the filters that are set have to hold.
#[derive(Clone, Debug, PartialEq)]
pub struct TodoSearchQuery {
    /// A text that the title or the description has to contain.
    pub keyword: Option<String>,
    pub status: Option<String>,
    pub priority: Option<String>,
    pub completed: Option<bool>,
    pub archived: Option<bool>,
    /// Tag ids of which the todo has to carry at least one; no filter where the list is empty.
    pub tags: Option<Vec<String>>,
}

/// The value of a [`TodoSearchQuery`].
pub ghost struct TodoSearchQueryView {
    pub keyword: Option<Seq<char>>,
    pub status: Option<Seq<char>>,
    pub priority: Option<Seq<char>>,
    pub completed: Option<bool>,
    pub archived: Option<bool>,
    pub tags: Option<Seq<Seq<char>>>,
}

impl View for TodoSearchQuery {
    type V = TodoSearchQueryView;

    open spec fn view(&self) -> TodoSearchQueryView {
        TodoSearchQueryView {
            keyword: self.keyword.deep_view(),
            status: self.status.deep_view(),
            priority: self.priority.deep_view(),
            completed: self.completed,
            archived: self.archived,
            tags: self.tags.deep_view(),
        }
    }
}

/// One operation applied to several todos.
#[derive(Clone, Debug, PartialEq)]
pub struct BatchTodoOperation {
    /// `complete`, `archive`, `delete` or `update`.
    pub operation: String,
    pub todo_ids: Vec<String>,
    /// The update that `update` applies to each todo; its `id` is not read.
    pub updates: Option<UpdateTodoRequest>,
}

/// The value of a [`BatchTodoOperation`].
pub ghost struct BatchTodoOperationView {
    pub operation: Seq<char>,
    pub todo_ids: Seq<Seq<char>>,
    pub updates: Option<UpdateTodoRequestView>,
}

impl View for BatchTodoOperation {
    type V = BatchTodoOperationView;

    open spec fn view(&self) -> BatchTodoOperationView {
        BatchTodoOperationView {
            operation: self.operation@,
            todo_ids: self.todo_ids.deep_view(),
            updates: match self.updates {
                Some(u) => Some(u@),
                None => None,
            },
        }
    }
}

} // verus!
