//! Todos as they are written: created, updated and deleted. A change that is refused
//! writes nothing.
use vstd::prelude::*;
use crate::database::{Database, StoreModel};
use crate::error::StoreError;
use crate::fields::{copy_opt, or_kept, or_kept_opt, pick_opt, pick_text};
use crate::ident::{fresh_id, now_millis};
use crate::json::{checked_encoding, encode_strings, or_none};
use crate::model::tag::TodoTag;
use crate::model::todo::{
    CreateTodoRequest,
    CreateTodoRequestView,
    Todo,
    TodoRow,
    TodoRowView,
    TodoView,
    UpdateTodoRequest,
    UpdateTodoRequestView,
};
use crate::ordering::picked;
use crate::table::{
    has_key,
    lemma_picked_keys,
    lemma_push_fresh,
    lookup,
    pick,
    position,
    replaced,
    Stored,
};
use crate::database::relations::{attach_each, lemma_picked_relations, retagged, tags_exist};
use crate::database::todos::opt_is;

verus! {

/// The row of the todo that a request creates under the id `id` at the time `now`,
/// with `dependencies` as the text of its dependency list: its status is `todo` where
/// the request names none, it has made no progress, it is neither completed nor
/// archived, and it was created and last updated by its assignee at the same instant.
pub open spec fn new_todo_row(
    id: Seq<char>,
    now: i64,
    req: CreateTodoRequestView,
    dependencies: Seq<char>,
) -> TodoRowView {
    TodoRowView {
        id: id,
        title: req.title,
        description: req.description,
        status: or_kept(req.status, "todo"@),
        priority: req.priority,
        due_date: req.due_date,
        estimated_hours: req.estimated_hours,
        actual_hours: None,
        progress: 0,
        assignee: req.assignee,
        project_id: req.project_id,
        parent_id: req.parent_id,
        recurring_config: req.recurring_config,
        dependencies: dependencies,
        completed: false,
        archived: false,
        created_by: req.assignee,
        updated_by: req.assignee,
        created_at: now,
        updated_at: now,
        archived_at: None,
    }
}

/// The row `row` after the update `req` at the time `now`: the fields that the request
/// sets are taken from it and all others stay; archiving sets the time of archiving;
/// the time of the update is `now`.
pub open spec fn updated_todo_row(row: TodoRowView, req: UpdateTodoRequestView, now: i64) -> TodoRowView {
    TodoRowView {
        title: or_kept(req.title, row.title),
        description: or_kept_opt(req.description, row.description),
        status: or_kept(req.status, row.status),
        priority: or_kept_opt(req.priority, row.priority),
        due_date: or_kept_opt(req.due_date, row.due_date),
        estimated_hours: or_kept_opt(req.estimated_hours, row.estimated_hours),
        actual_hours: or_kept_opt(req.actual_hours, row.actual_hours),
        progress: or_kept(req.progress, row.progress),
        completed: or_kept(req.completed, row.completed),
        archived: or_kept(req.archived, row.archived),
        archived_at: if req.archived == Some(true) {
            Some(now)
        } else {
            row.archived_at
        },
        updated_at: now,
        ..row
    }
}

impl StoreModel {
    /// Why the creation of a todo under the id `id` is refused, if it is: the id is
    /// taken, one of the tags to attach does not exist, or the dependency list has no
    /// encoding from which it is read back.
    pub open spec fn refuses_todo(self, id: Seq<char>, req: CreateTodoRequestView) -> Option<StoreError> {
        if has_key::<TodoRow>(self.todos, id) {
            Some(StoreError::DuplicateKey)
        } else if !tags_exist(self.tags, or_none(req.tags)) {
            Some(StoreError::MissingReference)
        } else if checked_encoding(or_none(req.dependencies)) is None {
            Some(StoreError::Encoding)
        } else {
            None
        }
    }

    /// Creating the todo of `req` under the id `id` at the time `now`, its dependency
    /// list encoded: the row is appended, each tag of the request is
    /// attached, and the todo is handed out as it is read back.
    pub open spec fn create_todo(self, id: Seq<char>, now: i64, req: CreateTodoRequestView) -> Result<
        (StoreModel, TodoView),
        StoreError,
    > {
        match self.refuses_todo(id, req) {
            Some(e) => Err(e),
            None => {
                let dependencies = checked_encoding(or_none(req.dependencies))->0;
                let row = new_todo_row(id, now, req, dependencies);
                let next = StoreModel {
                    todos: self.todos.push(row),
                    relations: attach_each(self.relations, id, or_none(req.tags)),
                    ..self
                };
                Ok((next, next.assembled(row)))
            },
        }
    }

    /// Why an update of a todo is refused, if it is: no todo has the id, or one of the
    /// new tags does not exist.
    pub open spec fn refuses_update(self, req: UpdateTodoRequestView) -> Option<StoreError> {
        if !has_key::<TodoRow>(self.todos, req.id) {
            Some(StoreError::NotFound)
        } else {
            match req.tags {
                Some(tags) => if !tags_exist(self.tags, tags) {
                    Some(StoreError::MissingReference)
                } else {
                    None
                },
                None => None,
            }
        }
    }

    /// Updating a todo at the time `now`: the updated row takes the place of the stored
    /// one, the tags of the request, where it has any, replace the ones attached so far,
    /// and the todo is handed out as it is read back.
    pub open spec fn update_todo(self, req: UpdateTodoRequestView, now: i64) -> Result<
        (StoreModel, TodoView),
        StoreError,
    > {
        match self.refuses_update(req) {
            Some(e) => Err(e),
            None => {
                let row = updated_todo_row(lookup::<TodoRow>(self.todos, req.id)->0, req, now);
                let next = StoreModel {
                    todos: replaced::<TodoRow>(self.todos, req.id, row),
                    relations: match req.tags {
                        Some(tags) => retagged(self.relations, req.id, tags),
                        None => self.relations,
                    },
                    ..self
                };
                Ok((next, next.assembled(row)))
            },
        }
    }

    /// The store with only the todos that `keep` marks. The relations of a todo that
    /// goes go with it.
    pub open spec fn keeping_todos(self, keep: Seq<bool>) -> StoreModel {
        let todos = picked(self.todos, keep);
        StoreModel {
            todos: todos,
            relations: picked(
                self.relations,
                Seq::new(
                    self.relations.len(),
                    |i: int| has_key::<TodoRow>(todos, self.relations[i].todo_id),
                ),
            ),
            ..self
        }
    }

    /// For each todo, whether it stays when the todo `id` is deleted: it is neither
    /// that todo nor one of its subtasks.
    pub open spec fn outside_mask(self, id: Seq<char>) -> Seq<bool> {
        Seq::new(
            self.todos.len(),
            |i: int| !(self.todos[i].id == id || self.todos[i].parent_id == Some(id)),
        )
    }

    /// The store without the todo `id` and without its direct subtasks. The subtasks
    /// of those subtasks stay.
    pub open spec fn delete_todo(self, id: Seq<char>) -> StoreModel {
        self.keeping_todos(self.outside_mask(id))
    }
}

/// The row `row` after the update `req` at the time `now`.
fn updated_row(row: &TodoRow, req: &UpdateTodoRequest, now: i64) -> (r: TodoRow)
    ensures
        r@ == updated_todo_row(row@, req@, now),
{
    TodoRow {
        id: row.id.clone(),
        title: pick_text(&req.title, &row.title),
        description: pick_opt(&req.description, &row.description),
        status: pick_text(&req.status, &row.status),
        priority: pick_opt(&req.priority, &row.priority),
        due_date: pick_opt(&req.due_date, &row.due_date),
        estimated_hours: match req.estimated_hours {
            Some(h) => Some(h),
            None => row.estimated_hours,
        },
        actual_hours: match req.actual_hours {
            Some(h) => Some(h),
            None => row.actual_hours,
        },
        progress: match req.progress {
            Some(p) => p,
            None => row.progress,
        },
        assignee: copy_opt(&row.assignee),
        project_id: copy_opt(&row.project_id),
        parent_id: copy_opt(&row.parent_id),
        recurring_config: copy_opt(&row.recurring_config),
        dependencies: row.dependencies.clone(),
        completed: match req.completed {
            Some(c) => c,
            None => row.completed,
        },
        archived: match req.archived {
            Some(a) => a,
            None => row.archived,
        },
        created_by: copy_opt(&row.created_by),
        updated_by: copy_opt(&row.updated_by),
        created_at: row.created_at,
        updated_at: now,
        archived_at: match req.archived {
            Some(true) => Some(now),
            _ => row.archived_at,
        },
    }
}

impl Database {
    /// Creates the todo of `req` under the id `id` at the time `now`, attaches the tags
    /// that the request names, and hands the todo out as it is read back. Nothing is
    /// written where the todo is refused.
    pub fn insert_todo(&mut self, id: String, now: i64, req: CreateTodoRequest) -> (r: Result<
        Todo,
        StoreError,
    >)
        requires
            old(self).wf(),
        ensures
            final(self).wf(),
            match r {
                Ok(t) => old(self)@.create_todo(id@, now, req@) == Ok::<_, StoreError>((final(self)@, t@)),
                Err(e) => old(self)@.create_todo(id@, now, req@) == Err::<(StoreModel, TodoView), _>(e)
                    && final(self)@ == old(self)@,
            },
    {
        if position(&self.todos, &id).is_some() {
            return Err(StoreError::DuplicateKey);
        }
        let CreateTodoRequest {
            title,
            description,
            status,
            priority,
            due_date,
            estimated_hours,
            assignee,
            project_id,
            parent_id,
            recurring_config,
            dependencies,
            tags,
        } = req;
        let tags = match tags {
            Some(list) => list,
            None => Vec::new(),
        };
        if !self.tags_exist(&tags) {
            return Err(StoreError::MissingReference);
        }
        let dependencies = match dependencies {
            Some(list) => list,
            None => Vec::new(),
        };
        assert(dependencies.deep_view() =~= or_none(req@.dependencies));
        let text = match encode_strings(&dependencies) {
            Some(text) => text,
            None => {
                return Err(StoreError::Encoding);
            },
        };
        let row = TodoRow {
            id: id.clone(),
            title: title,
            description: description,
            status: match status {
                Some(s) => s,
                None => "todo".to_owned(),
            },
            priority: priority,
            due_date: due_date,
            estimated_hours: estimated_hours,
            actual_hours: None,
            progress: 0,
            assignee: copy_opt(&assignee),
            project_id: project_id,
            parent_id: parent_id,
            recurring_config: recurring_config,
            dependencies: text,
            completed: false,
            archived: false,
            created_by: copy_opt(&assignee),
            updated_by: assignee,
            created_at: now,
            updated_at: now,
            archived_at: None,
        };
        let ghost rv = row@;
        proof {
            lemma_push_fresh::<TodoRow>(old(self)@.todos, rv);
        }
        self.todos.push(row);
        proof {
            assert(self@.todos =~= old(self)@.todos.push(rv));
        }
        self.attach_tags(&id, &tags);
        let at = self.todos.len() - 1;
        let t = self.assemble(at);
        Ok(t)
    }

    /// Creates a todo under a fresh id, with the current time as the time of its
    /// creation and of its last update.
    pub fn create_todo(&mut self, req: CreateTodoRequest) -> (r: Result<Todo, StoreError>)
        requires
            old(self).wf(),
        ensures
            final(self).wf(),
            match r {
                Ok(t) => {
                    &&& t@.id.len() == 36
                    &&& old(self)@.create_todo(t@.id, t@.created_at, req@) == Ok::<_, StoreError>(
                        (final(self)@, t@),
                    )
                },
                Err(e) => {
                    &&& final(self)@ == old(self)@
                    &&& exists|id: Seq<char>, now: i64|
                        id.len() == 36 && #[trigger] old(self)@.create_todo(id, now, req@) == Err::<
                            (StoreModel, TodoView),
                            _,
                        >(e)
                    &&& e == StoreError::DuplicateKey || (e == StoreError::MissingReference
                        && !tags_exist(old(self)@.tags, or_none(req@.tags))) || (e
                        == StoreError::Encoding && checked_encoding(or_none(req@.dependencies)) is None)
                },
            },
    {
        let id = fresh_id();
        let now = now_millis();
        let ghost key = id@;
        let r = self.insert_todo(id, now, req);
        proof {
            if r is Ok {
                assert(old(self)@.create_todo(key, now, req@) is Ok);
                assert(r->Ok_0@.id == key);
            } else {
                assert(key.len() == 36 && old(self)@.create_todo(key, now, req@) == Err::<
                    (StoreModel, TodoView),
                    _,
                >(r->Err_0));
            }
        }
        r
    }

    /// Updates the todo `req.id` at the time `now`: only the fields that the request
    /// sets are changed, and the tags of the request, where it has any, replace the
    /// ones attached so far. Nothing is written where the update is refused.
    pub fn update_todo_at(&mut self, req: UpdateTodoRequest, now: i64) -> (r: Result<Todo, StoreError>)
        requires
            old(self).wf(),
        ensures
            final(self).wf(),
            match r {
                Ok(t) => old(self)@.update_todo(req@, now) == Ok::<_, StoreError>((final(self)@, t@)),
                Err(e) => old(self)@.update_todo(req@, now) == Err::<(StoreModel, TodoView), _>(e)
                    && final(self)@ == old(self)@,
            },
    {
        let at = match position(&self.todos, &req.id) {
            Some(at) => at,
            None => {
                return Err(StoreError::NotFound);
            },
        };
        match &req.tags {
            Some(tags) => {
                if !self.tags_exist(tags) {
                    return Err(StoreError::MissingReference);
                }
            },
            None => {},
        }
        let row = updated_row(&self.todos[at], &req, now);
        let ghost rv = row@;
        self.todos.set(at, row);
        proof {
            assert(self@.todos =~= old(self)@.todos.update(at as int, rv));
            assert forall|i: int| 0 <= i < self@.relations.len() implies has_key::<TodoRow>(
                self@.todos,
                (#[trigger] self@.relations[i]).todo_id,
            ) && has_key::<TodoTag>(self@.tags, self@.relations[i].tag_id) by {
                assert(has_key::<TodoRow>(old(self)@.todos, old(self)@.relations[i].todo_id));
            }
            assert(self@ =~= (StoreModel {
                todos: replaced::<TodoRow>(old(self)@.todos, req@.id, rv),
                ..old(self)@
            }));
        }
        match &req.tags {
            Some(tags) => {
                self.retag(&req.id, tags);
            },
            None => {},
        }
        let t = self.assemble(at);
        Ok(t)
    }

    /// Updates a todo, with the current time as the time of the update.
    pub fn update_todo(&mut self, req: UpdateTodoRequest) -> (r: Result<Todo, StoreError>)
        requires
            old(self).wf(),
        ensures
            final(self).wf(),
            match r {
                Ok(t) => old(self)@.update_todo(req@, t@.updated_at) == Ok::<_, StoreError>(
                    (final(self)@, t@),
                ),
                Err(e) => old(self)@.refuses_update(req@) == Some(e) && final(self)@ == old(self)@,
            },
    {
        let now = now_millis();
        self.update_todo_at(req, now)
    }

    /// Keeps the todos that `keep` marks and deletes the others, each with its
    /// relations.
    pub(crate) fn remove_todos(&mut self, keep: &Vec<bool>)
        requires
            old(self).wf(),
            keep.len() == old(self)@.todos.len(),
        ensures
            final(self).wf(),
            final(self)@ == old(self)@.keeping_todos(keep@),
    {
        let ghost start = old(self)@;
        let todos = pick(&self.todos, keep);
        proof {
            lemma_picked_keys::<TodoRow>(start.todos, keep@);
        }
        self.todos = todos;
        let mut mask: Vec<bool> = Vec::new();
        let mut i: usize = 0;
        while i < self.relations.len()
            invariant
                i <= self.relations.len(),
                mask.len() == i,
                self@ == (StoreModel { todos: picked(start.todos, keep@), ..start }),
                forall|j: int|
                    0 <= j < i ==> mask@[j] == has_key::<TodoRow>(
                        self@.todos,
                        start.relations[j].todo_id,
                    ),
            decreases self.relations.len() - i,
        {
            mask.push(position(&self.todos, &self.relations[i].todo_id).is_some());
            i += 1;
        }
        assert(mask@ =~= Seq::new(
            start.relations.len(),
            |i: int| has_key::<TodoRow>(picked(start.todos, keep@), start.relations[i].todo_id),
        ));
        let relations = pick(&self.relations, &mask);
        proof {
            lemma_picked_relations(self@.todos, start.tags, start.relations, mask@);
        }
        self.relations = relations;
    }

    /// Deletes the todo `todo_id` and its direct subtasks, each with its relations to
    /// tags. The subtasks of the subtasks stay, without a parent that exists.
    pub fn delete_todo(&mut self, todo_id: String) -> (r: Result<(), StoreError>)
        requires
            old(self).wf(),
        ensures
            final(self).wf(),
            r is Ok,
            final(self)@ == old(self)@.delete_todo(todo_id@),
    {
        let mut keep: Vec<bool> = Vec::new();
        let mut i: usize = 0;
        while i < self.todos.len()
            invariant
                i <= self.todos.len(),
                keep.len() == i,
                self@ == old(self)@,
                forall|j: int|
                    0 <= j < i ==> keep@[j] == !(self@.todos[j].id == todo_id@ || self@.todos[j].parent_id
                        == Some(todo_id@)),
            decreases self.todos.len() - i,
        {
            let row = &self.todos[i];
            keep.push(!(row.id == todo_id || opt_is(&row.parent_id, &todo_id)));
            i += 1;
        }
        assert(keep@ =~= self@.outside_mask(todo_id@));
        self.remove_todos(&keep);
        Ok(())
    }
}

} // verus!
