//! One operation on several todos: completing, archiving, deleting or updating them.
use vstd::prelude::*;
use crate::database::{Database, StoreModel};
use crate::error::StoreError;
use crate::fields::{copy_opt, copy_opt_list};
use crate::ident::now_millis;
use crate::model::todo::{
    BatchTodoOperation,
    BatchTodoOperationView,
    Todo,
    TodoRow,
    TodoRowView,
    TodoView,
    UpdateTodoRequest,
    UpdateTodoRequestView,
};
use crate::table::{copy_rows, lemma_same_keys, position, rows_view, Stored};
use crate::text::lists;

verus! {

/// What a batch does to each of its todos.
#[derive(Clone, Copy, Debug, PartialEq, Eq, Structural)]
pub enum Mark {
    /// The todo is completed, and its status says so.
    Complete,
    /// The todo is archived, at the time of the batch.
    Archive,
}

/// The row `row` after `mark` at the time `now`.
pub open spec fn marked_row(row: TodoRowView, mark: Mark, now: i64) -> TodoRowView {
    match mark {
        Mark::Complete => TodoRowView {
            completed: true,
            status: "completed"@,
            updated_at: now,
            ..row
        },
        Mark::Archive => TodoRowView {
            archived: true,
            archived_at: Some(now),
            updated_at: now,
            ..row
        },
    }
}

/// The update `req`, addressed to the todo `id`.
pub open spec fn addressed(req: UpdateTodoRequestView, id: Seq<char>) -> UpdateTodoRequestView {
    UpdateTodoRequestView { id: id, ..req }
}

impl StoreModel {
    /// For each todo, whether its id is none of `ids`.
    pub open spec fn unlisted_mask(self, ids: Seq<Seq<char>>) -> Seq<bool> {
        Seq::new(self.todos.len(), |i: int| !ids.contains(self.todos[i].id))
    }

    /// The store without the todos `ids`. Their subtasks stay.
    pub open spec fn delete_each(self, ids: Seq<Seq<char>>) -> StoreModel {
        self.keeping_todos(self.unlisted_mask(ids))
    }

    /// The store with `mark` applied, at the time `now`, to each todo whose id is among
    /// `ids`.
    pub open spec fn mark_each(self, ids: Seq<Seq<char>>, mark: Mark, now: i64) -> StoreModel {
        StoreModel {
            todos: Seq::new(
                self.todos.len(),
                |i: int|
                    if ids.contains(self.todos[i].id) {
                        marked_row(self.todos[i], mark, now)
                    } else {
                        self.todos[i]
                    },
            ),
            ..self
        }
    }

    /// The store with the update `req` applied at the time `now` to each of the todos
    /// `ids`, one after the other; the first update that is refused refuses the whole.
    pub open spec fn update_each(self, ids: Seq<Seq<char>>, req: UpdateTodoRequestView, now: i64) -> Result<
        StoreModel,
        StoreError,
    >
        decreases ids.len(),
    {
        if ids.len() == 0 {
            Ok(self)
        } else {
            match self.update_each(ids.drop_last(), req, now) {
                Err(e) => Err(e),
                Ok(mid) => match mid.update_todo(addressed(req, ids.last()), now) {
                    Ok(done) => Ok(done.0),
                    Err(e) => Err(e),
                },
            }
        }
    }

    /// Those of the todos `ids` that are there, in the order of `ids`.
    pub open spec fn found_todos(self, ids: Seq<Seq<char>>) -> Seq<TodoView>
        decreases ids.len(),
    {
        if ids.len() == 0 {
            Seq::empty()
        } else {
            let front = self.found_todos(ids.drop_last());
            match self.todo(ids.last()) {
                Some(t) => front.push(t),
                None => front,
            }
        }
    }

    /// A batch at the time `now`. `complete` and `archive` mark the todos that are
    /// there and hand them out; `delete` deletes them and hands out nothing; `update`
    /// applies its update to each, is refused as a whole where one update is refused,
    /// and hands the todos out; any other operation is refused.
    pub open spec fn batch(self, op: BatchTodoOperationView, now: i64) -> Result<
        (StoreModel, Seq<TodoView>),
        StoreError,
    > {
        if op.operation == "complete"@ {
            let next = self.mark_each(op.todo_ids, Mark::Complete, now);
            Ok((next, next.found_todos(op.todo_ids)))
        } else if op.operation == "archive"@ {
            let next = self.mark_each(op.todo_ids, Mark::Archive, now);
            Ok((next, next.found_todos(op.todo_ids)))
        } else if op.operation == "delete"@ {
            Ok((self.delete_each(op.todo_ids), Seq::empty()))
        } else if op.operation == "update"@ {
            match op.updates {
                Some(req) => match self.update_each(op.todo_ids, req, now) {
                    Ok(next) => Ok((next, next.found_todos(op.todo_ids))),
                    Err(e) => Err(e),
                },
                None => Ok((self, self.found_todos(op.todo_ids))),
            }
        } else {
            Err(StoreError::UnknownOperation)
        }
    }
}

/// The row `row` after `mark` at the time `now`.
fn mark_row(row: &TodoRow, mark: Mark, now: i64) -> (r: TodoRow)
    ensures
        r@ == marked_row(row@, mark, now),
{
    let mut r = row.dup();
    match mark {
        Mark::Complete => {
            r.completed = true;
            r.status = "completed".to_owned();
        },
        Mark::Archive => {
            r.archived = true;
            r.archived_at = Some(now);
        },
    }
    r.updated_at = now;
    r
}

/// The update `req`, addressed to the todo `id`.
fn address(req: &UpdateTodoRequest, id: String) -> (r: UpdateTodoRequest)
    ensures
        r@ == addressed(req@, id@),
{
    UpdateTodoRequest {
        id: id,
        title: copy_opt(&req.title),
        description: copy_opt(&req.description),
        status: copy_opt(&req.status),
        priority: copy_opt(&req.priority),
        due_date: copy_opt(&req.due_date),
        estimated_hours: req.estimated_hours,
        actual_hours: req.actual_hours,
        progress: req.progress,
        completed: req.completed,
        archived: req.archived,
        tags: copy_opt_list(&req.tags),
    }
}

/// Once an update of the run is refused, the run is refused with the same error,
/// whatever follows.
proof fn lemma_update_each_stops(
    m: StoreModel,
    ids: Seq<Seq<char>>,
    req: UpdateTodoRequestView,
    now: i64,
    k: int,
)
    requires
        0 <= k <= ids.len(),
        m.update_each(ids.take(k), req, now) is Err,
    ensures
        m.update_each(ids, req, now) == m.update_each(ids.take(k), req, now),
    decreases ids.len() - k,
{
    if k == ids.len() {
        assert(ids.take(k) =~= ids);
    } else {
        assert(ids.drop_last().take(k) =~= ids.take(k));
        lemma_update_each_stops(m, ids.drop_last(), req, now, k);
    }
}

impl Database {
    /// Applies `mark` at the time `now` to each todo whose id is among `ids`.
    fn mark_todos(&mut self, ids: &Vec<String>, mark: Mark, now: i64)
        requires
            old(self).wf(),
        ensures
            final(self).wf(),
            final(self)@ == old(self)@.mark_each(ids.deep_view(), mark, now),
    {
        let ghost start = old(self)@;
        let ghost listed = ids.deep_view();
        let mut i: usize = 0;
        while i < self.todos.len()
            invariant
                i <= self.todos.len(),
                listed == ids.deep_view(),
                start == old(self)@,
                self.todos.len() == start.todos.len(),
                self@ == (StoreModel { todos: self@.todos, ..start }),
                forall|j: int|
                    0 <= j < i ==> #[trigger] self@.todos[j] == if listed.contains(start.todos[j].id) {
                        marked_row(start.todos[j], mark, now)
                    } else {
                        start.todos[j]
                    },
                forall|j: int| i <= j < start.todos.len() ==> #[trigger] self@.todos[j] == start.todos[j],
            decreases self.todos.len() - i,
        {
            let ghost here = self@.todos;
            let ghost rows = self.todos@;
            if lists(ids, &self.todos[i].id) {
                let row = mark_row(&self.todos[i], mark, now);
                self.todos.set(i, row);
            }
            proof {
                assert forall|j: int| 0 <= j < i + 1 implies #[trigger] self@.todos[j] == if listed.contains(
                    start.todos[j].id,
                ) {
                    marked_row(start.todos[j], mark, now)
                } else {
                    start.todos[j]
                } by {
                    if j < i {
                        assert(here[j] == rows[j]@);
                    }
                }
                assert forall|j: int| i + 1 <= j < start.todos.len() implies #[trigger] self@.todos[j]
                    == start.todos[j] by {
                    assert(here[j] == start.todos[j]);
                }
            }
            i += 1;
        }
        proof {
            let next = start.mark_each(listed, mark, now);
            lemma_same_keys::<TodoRow>(start.todos, next.todos);
            assert(self@ =~= next);
        }
    }

    /// Those of the todos `ids` that are there, in the order of `ids`.
    fn find_todos(&self, ids: &Vec<String>) -> (out: Vec<Todo>)
        requires
            self.wf(),
        ensures
            rows_view(out@) == self@.found_todos(ids.deep_view()),
    {
        let ghost listed = ids.deep_view();
        let mut out: Vec<Todo> = Vec::new();
        let mut k: usize = 0;
        while k < ids.len()
            invariant
                k <= ids.len(),
                self.wf(),
                listed == ids.deep_view(),
                rows_view(out@) == self@.found_todos(listed.take(k as int)),
            decreases ids.len() - k,
        {
            proof {
                assert(listed.take(k + 1).drop_last() =~= listed.take(k as int));
            }
            match position(&self.todos, &ids[k]) {
                Some(at) => {
                    out.push(self.assemble(at));
                },
                None => {},
            }
            k += 1;
        }
        assert(listed.take(ids.len() as int) =~= listed);
        out
    }

    /// Applies the update `req` to each of the todos `ids`, one after the other. Where
    /// one update is refused, none is applied.
    fn update_todos(&mut self, ids: &Vec<String>, req: &UpdateTodoRequest, now: i64) -> (r: Result<
        (),
        StoreError,
    >)
        requires
            old(self).wf(),
        ensures
            final(self).wf(),
            match r {
                Ok(_) => old(self)@.update_each(ids.deep_view(), req@, now) == Ok::<_, StoreError>(
                    final(self)@,
                ),
                Err(e) => old(self)@.update_each(ids.deep_view(), req@, now) == Err::<StoreModel, _>(e)
                    && final(self)@ == old(self)@,
            },
    {
        let ghost start = old(self)@;
        let ghost listed = ids.deep_view();
        let saved_todos = copy_rows(&self.todos);
        let saved_relations = copy_rows(&self.relations);
        let mut k: usize = 0;
        while k < ids.len()
            invariant
                k <= ids.len(),
                self.wf(),
                start == old(self)@,
                start.wf(),
                listed == ids.deep_view(),
                rows_view(saved_todos@) == start.todos,
                rows_view(saved_relations@) == start.relations,
                self@ == (StoreModel { todos: self@.todos, relations: self@.relations, ..start }),
                start.update_each(listed.take(k as int), req@, now) == Ok::<_, StoreError>(self@),
            decreases ids.len() - k,
        {
            proof {
                assert(listed.take(k + 1).drop_last() =~= listed.take(k as int));
            }
            let one = address(req, ids[k].clone());
            match self.update_todo_at(one, now) {
                Ok(_) => {},
                Err(e) => {
                    proof {
                        lemma_update_each_stops(start, listed, req@, now, k + 1);
                    }
                    self.todos = saved_todos;
                    self.relations = saved_relations;
                    return Err(e);
                },
            }
            k += 1;
        }
        assert(listed.take(ids.len() as int) =~= listed);
        Ok(())
    }

    /// Runs a batch at the time `now` and hands out the todos it has touched:
    /// `complete` and `archive` mark the todos that are there; `delete` deletes them
    /// and hands out nothing; `update` applies its update to each of them and applies
    /// none where one is refused. Any other operation is refused.
    pub fn batch_update_todos_at(&mut self, operation: BatchTodoOperation, now: i64) -> (r: Result<
        Vec<Todo>,
        StoreError,
    >)
        requires
            old(self).wf(),
        ensures
            final(self).wf(),
            match r {
                Ok(list) => old(self)@.batch(operation@, now) == Ok::<_, StoreError>(
                    (final(self)@, rows_view(list@)),
                ),
                Err(e) => old(self)@.batch(operation@, now) == Err::<(StoreModel, Seq<TodoView>), _>(e)
                    && final(self)@ == old(self)@,
            },
    {
        let ids = &operation.todo_ids;
        if operation.operation == "complete".to_owned() {
            self.mark_todos(ids, Mark::Complete, now);
            Ok(self.find_todos(ids))
        } else if operation.operation == "archive".to_owned() {
            self.mark_todos(ids, Mark::Archive, now);
            Ok(self.find_todos(ids))
        } else if operation.operation == "delete".to_owned() {
            let mut keep: Vec<bool> = Vec::new();
            let mut i: usize = 0;
            while i < self.todos.len()
                invariant
                    i <= self.todos.len(),
                    keep.len() == i,
                    self@ == old(self)@,
                    forall|j: int|
                        0 <= j < i ==> keep@[j] == !ids.deep_view().contains(self@.todos[j].id),
                decreases self.todos.len() - i,
            {
                keep.push(!lists(ids, &self.todos[i].id));
                i += 1;
            }
            assert(keep@ =~= self@.unlisted_mask(ids.deep_view()));
            self.remove_todos(&keep);
            let none: Vec<Todo> = Vec::new();
            assert(rows_view(none@) =~= Seq::<TodoView>::empty());
            Ok(none)
        } else if operation.operation == "update".to_owned() {
            match &operation.updates {
                Some(req) => {
                    match self.update_todos(ids, req, now) {
                        Ok(_) => Ok(self.find_todos(ids)),
                        Err(e) => Err(e),
                    }
                },
                None => Ok(self.find_todos(ids)),
            }
        } else {
            Err(StoreError::UnknownOperation)
        }
    }

    /// Runs a batch, with the current time as the time of its changes.
    pub fn batch_update_todos(&mut self, operation: BatchTodoOperation) -> (r: Result<
        Vec<Todo>,
        StoreError,
    >)
        requires
            old(self).wf(),
        ensures
            final(self).wf(),
            match r {
                Ok(list) => exists|now: i64|
                    old(self)@.batch(operation@, now) == Ok::<_, StoreError>(
                        (final(self)@, rows_view(list@)),
                    ),
                Err(e) => final(self)@ == old(self)@ && exists|now: i64|
                    old(self)@.batch(operation@, now) == Err::<(StoreModel, Seq<TodoView>), _>(e),
            },
    {
        let now = now_millis();
        self.batch_update_todos_at(operation, now)
    }
}

} // verus!
