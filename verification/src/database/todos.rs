//! Todos as they are read: each with its tags and its direct subtasks, one by one,
//! all of them, or those that a search asks for.
use vstd::prelude::*;
use crate::database::{Database, has_relation, StoreModel};
use crate::error::StoreError;
use crate::fields::copy_opt;
use crate::json::{decode_strings, strings_in};
use crate::model::tag::TagRelationView;
use crate::model::todo::{
    Todo,
    TodoRow,
    TodoRowView,
    TodoSearchQuery,
    TodoSearchQueryView,
    TodoView,
};
use crate::ordering::{
    full_mask,
    ints,
    keys_view,
    mark_all,
    marked,
    marked_positions,
    order_positions,
    ordered,
    OrderKey,
    OrderKeyView,
};
use crate::table::{lookup, position, rows_view, Stored};
use crate::text::{chars_of, contains_text, str_contains};

verus! {

/// The todo that a stored row stands for, with the tags and subtasks given. A
/// dependency list that cannot be read stands for no dependencies.
pub open spec fn todo_of(row: TodoRowView, tags: Seq<Seq<char>>, subtasks: Seq<TodoView>) -> TodoView {
    TodoView {
        id: row.id,
        title: row.title,
        description: row.description,
        status: row.status,
        priority: row.priority,
        due_date: row.due_date,
        estimated_hours: row.estimated_hours,
        actual_hours: row.actual_hours,
        progress: row.progress,
        assignee: row.assignee,
        project_id: row.project_id,
        parent_id: row.parent_id,
        recurring_config: row.recurring_config,
        dependencies: strings_in(row.dependencies),
        completed: row.completed,
        archived: row.archived,
        created_by: row.created_by,
        updated_by: row.updated_by,
        created_at: row.created_at,
        updated_at: row.updated_at,
        archived_at: row.archived_at,
        tags: tags,
        subtasks: subtasks,
    }
}

/// Whether a todo passes the filters of a search that do not look at its tags: the
/// keyword, where it is set and not empty, occurs in the title or in the description;
/// status and priority, where they are set, are the todo's; and the two flags, where
/// they are set, are the todo's.
pub open spec fn todo_passes(row: TodoRowView, q: TodoSearchQueryView) -> bool {
    &&& match q.keyword {
        Some(keyword) => keyword.len() == 0 || contains_text(row.title, keyword) || match row.description {
            Some(description) => contains_text(description, keyword),
            None => false,
        },
        None => true,
    }
    &&& match q.status {
        Some(status) => row.status == status,
        None => true,
    }
    &&& match q.priority {
        Some(priority) => row.priority == Some(priority),
        None => true,
    }
    &&& match q.completed {
        Some(completed) => row.completed == completed,
        None => true,
    }
    &&& match q.archived {
        Some(archived) => row.archived == archived,
        None => true,
    }
}

/// The todo `todo_id` carries one of the tags `tags`.
pub open spec fn carries_one_of(
    relations: Seq<TagRelationView>,
    todo_id: Seq<char>,
    tags: Seq<Seq<char>>,
) -> bool {
    exists|k: int| 0 <= k < tags.len() && has_relation(relations, todo_id, #[trigger] tags[k])
}

impl StoreModel {
    /// For each relation, whether it belongs to the todo `todo_id`.
    pub open spec fn relation_mask(self, todo_id: Seq<char>) -> Seq<bool> {
        Seq::new(self.relations.len(), |i: int| self.relations[i].todo_id == todo_id)
    }

    /// The ids of the tags attached to the todo `todo_id`, in the order in which they
    /// were attached.
    pub open spec fn tags_of(self, todo_id: Seq<char>) -> Seq<Seq<char>> {
        let at = marked(self.relation_mask(todo_id));
        Seq::new(at.len(), |k: int| self.relations[at[k]].tag_id)
    }

    /// For each todo, whether it is a subtask of `parent_id`.
    pub open spec fn child_mask(self, parent_id: Seq<char>) -> Seq<bool> {
        Seq::new(self.todos.len(), |i: int| self.todos[i].parent_id == Some(parent_id))
    }

    /// For each todo, the time of its creation.
    pub open spec fn created_keys(self) -> Seq<OrderKeyView> {
        Seq::new(self.todos.len(), |i: int| OrderKeyView::Number(self.todos[i].created_at as int))
    }

    /// For each todo, the time of its last update.
    pub open spec fn updated_keys(self) -> Seq<OrderKeyView> {
        Seq::new(self.todos.len(), |i: int| OrderKeyView::Number(self.todos[i].updated_at as int))
    }

    /// A todo with its tags and without subtasks: the form in which a subtask is
    /// handed out.
    pub open spec fn leaf(self, row: TodoRowView) -> TodoView {
        todo_of(row, self.tags_of(row.id), Seq::empty())
    }

    /// The positions of the subtasks of `parent_id`, the oldest first.
    pub open spec fn child_order(self, parent_id: Seq<char>) -> Seq<int> {
        ordered(self.created_keys(), marked(self.child_mask(parent_id)), false)
    }

    /// The subtasks of `parent_id`, the oldest first, each without subtasks of its own.
    pub open spec fn subtasks_of(self, parent_id: Seq<char>) -> Seq<TodoView> {
        let order = self.child_order(parent_id);
        Seq::new(order.len(), |k: int| self.leaf(self.todos[order[k]]))
    }

    /// A todo with its tags and its direct subtasks.
    pub open spec fn assembled(self, row: TodoRowView) -> TodoView {
        todo_of(row, self.tags_of(row.id), self.subtasks_of(row.id))
    }

    /// The todo with the id `id`, if there is one.
    pub open spec fn todo(self, id: Seq<char>) -> Option<TodoView> {
        match lookup::<TodoRow>(self.todos, id) {
            Some(row) => Some(self.assembled(row)),
            None => None,
        }
    }

    /// The todos at the positions `order`, each with its tags and subtasks.
    pub open spec fn todos_at(self, order: Seq<int>) -> Seq<TodoView> {
        Seq::new(order.len(), |k: int| self.assembled(self.todos[order[k]]))
    }

    /// All todos, subtasks among them, the most recently created first.
    pub open spec fn all_todos(self) -> Seq<TodoView> {
        self.todos_at(ordered(self.created_keys(), marked(full_mask(self.todos.len())), true))
    }

    /// Whether a todo passes all the filters of a search: those on its own fields, and,
    /// where tags are asked for, that it carries at least one of them.
    pub open spec fn todo_matches(self, row: TodoRowView, q: TodoSearchQueryView) -> bool {
        &&& todo_passes(row, q)
        &&& match q.tags {
            Some(tags) => tags.len() == 0 || carries_one_of(self.relations, row.id, tags),
            None => true,
        }
    }

    /// For each todo, whether it passes the filters of `q`.
    pub open spec fn todo_search_mask(self, q: TodoSearchQueryView) -> Seq<bool> {
        Seq::new(self.todos.len(), |i: int| self.todo_matches(self.todos[i], q))
    }

    /// The todos that pass the filters of `q`, the most recently updated first.
    pub open spec fn search_todos(self, q: TodoSearchQueryView) -> Seq<TodoView> {
        self.todos_at(ordered(self.updated_keys(), marked(self.todo_search_mask(q)), true))
    }
}

/// The todo that a stored row stands for, with the tags and subtasks given.
fn to_todo(row: &TodoRow, tags: Vec<String>, subtasks: Vec<Todo>) -> (t: Todo)
    ensures
        t@ == todo_of(row@, tags.deep_view(), rows_view(subtasks@)),
{
    let t = Todo {
        id: row.id.clone(),
        title: row.title.clone(),
        description: copy_opt(&row.description),
        status: row.status.clone(),
        priority: copy_opt(&row.priority),
        due_date: copy_opt(&row.due_date),
        estimated_hours: row.estimated_hours,
        actual_hours: row.actual_hours,
        progress: row.progress,
        assignee: copy_opt(&row.assignee),
        project_id: copy_opt(&row.project_id),
        parent_id: copy_opt(&row.parent_id),
        recurring_config: copy_opt(&row.recurring_config),
        dependencies: decode_strings(row.dependencies.as_str()),
        completed: row.completed,
        archived: row.archived,
        created_by: copy_opt(&row.created_by),
        updated_by: copy_opt(&row.updated_by),
        created_at: row.created_at,
        updated_at: row.updated_at,
        archived_at: row.archived_at,
        tags: tags,
        subtasks: subtasks,
    };
    proof {
        assert(t@.subtasks =~= rows_view(subtasks@));
    }
    t
}

/// Whether an optional text is the text `wanted`.
pub(crate) fn opt_is(given: &Option<String>, wanted: &String) -> (same: bool)
    ensures
        same == (given.deep_view() == Some(wanted@)),
{
    match given {
        Some(text) => *text == *wanted,
        None => false,
    }
}

/// Whether a stored todo passes the filters of a search that do not look at its tags.
fn passes(row: &TodoRow, q: &TodoSearchQuery, keyword: &Option<Vec<char>>) -> (hit: bool)
    requires
        match keyword {
            Some(k) => q@.keyword == Some(k@),
            None => q@.keyword is None,
        },
    ensures
        hit == todo_passes(row@, q@),
{
    match keyword {
        Some(k) => {
            if k.len() > 0 && !str_contains(row.title.as_str(), k) {
                let in_description = match &row.description {
                    Some(description) => str_contains(description.as_str(), k),
                    None => false,
                };
                if !in_description {
                    return false;
                }
            }
        },
        None => {},
    }
    match &q.status {
        Some(status) => {
            if row.status != *status {
                return false;
            }
        },
        None => {},
    }
    match &q.priority {
        Some(priority) => {
            if !opt_is(&row.priority, priority) {
                return false;
            }
        },
        None => {},
    }
    match q.completed {
        Some(completed) => {
            if row.completed != completed {
                return false;
            }
        },
        None => {},
    }
    match q.archived {
        Some(archived) => {
            if row.archived != archived {
                return false;
            }
        },
        None => {},
    }
    true
}

impl Database {
    /// Whether the todo `todo_id` carries one of the tags `tags`.
    fn carries_one_of(&self, todo_id: &String, tags: &Vec<String>) -> (found: bool)
        ensures
            found == carries_one_of(self@.relations, todo_id@, tags.deep_view()),
    {
        let ghost wanted = tags.deep_view();
        let mut k: usize = 0;
        while k < tags.len()
            invariant
                k <= tags.len(),
                wanted == tags.deep_view(),
                forall|j: int| 0 <= j < k ==> !has_relation(self@.relations, todo_id@, #[trigger] wanted[j]),
            decreases tags.len() - k,
        {
            if self.has_relation(todo_id, &tags[k]) {
                assert(has_relation(self@.relations, todo_id@, wanted[k as int]));
                return true;
            }
            k += 1;
        }
        false
    }

    /// The ids of the tags attached to the todo `todo_id`.
    pub(crate) fn tags_for(&self, todo_id: &String) -> (tags: Vec<String>)
        ensures
            tags.deep_view() == self@.tags_of(todo_id@),
    {
        let mut mask: Vec<bool> = Vec::new();
        let mut i: usize = 0;
        while i < self.relations.len()
            invariant
                i <= self.relations.len(),
                mask.len() == i,
                forall|j: int| 0 <= j < i ==> mask@[j] == (self@.relations[j].todo_id == todo_id@),
            decreases self.relations.len() - i,
        {
            mask.push(self.relations[i].todo_id == *todo_id);
            i += 1;
        }
        assert(mask@ =~= self@.relation_mask(todo_id@));
        let at = marked_positions(&mask);
        let mut tags: Vec<String> = Vec::new();
        let mut k: usize = 0;
        while k < at.len()
            invariant
                k <= at.len(),
                tags.len() == k,
                ints(at@) == marked(self@.relation_mask(todo_id@)),
                forall|j: int| 0 <= j < at.len() ==> 0 <= #[trigger] ints(at@)[j] < self.relations.len(),
                forall|j: int|
                    0 <= j < k ==> (#[trigger] tags@[j])@ == self@.relations[ints(at@)[j]].tag_id,
            decreases at.len() - k,
        {
            assert(ints(at@)[k as int] == at@[k as int]);
            tags.push(self.relations[at[k]].tag_id.clone());
            k += 1;
        }
        tags
    }

    /// For each todo, the time of its creation or of its last update.
    fn todo_keys(&self, by_update: bool) -> (keys: Vec<OrderKey>)
        ensures
            keys_view(keys@) == if by_update {
                self@.updated_keys()
            } else {
                self@.created_keys()
            },
            keys.len() == self@.todos.len(),
    {
        let mut keys: Vec<OrderKey> = Vec::new();
        let mut i: usize = 0;
        while i < self.todos.len()
            invariant
                i <= self.todos.len(),
                keys.len() == i,
                forall|j: int|
                    0 <= j < i ==> (#[trigger] keys@[j])@ == OrderKeyView::Number(
                        if by_update {
                            self@.todos[j].updated_at as int
                        } else {
                            self@.todos[j].created_at as int
                        },
                    ),
            decreases self.todos.len() - i,
        {
            let row = &self.todos[i];
            keys.push(OrderKey::Number(if by_update { row.updated_at } else { row.created_at }));
            i += 1;
        }
        keys
    }

    /// The subtasks of `parent_id`, the oldest first, each with its tags and without
    /// subtasks of its own.
    fn subtasks_for(&self, parent_id: &String) -> (subtasks: Vec<Todo>)
        ensures
            rows_view(subtasks@) == self@.subtasks_of(parent_id@),
    {
        let mut mask: Vec<bool> = Vec::new();
        let mut i: usize = 0;
        while i < self.todos.len()
            invariant
                i <= self.todos.len(),
                mask.len() == i,
                forall|j: int|
                    0 <= j < i ==> mask@[j] == (self@.todos[j].parent_id == Some(parent_id@)),
            decreases self.todos.len() - i,
        {
            mask.push(opt_is(&self.todos[i].parent_id, parent_id));
            i += 1;
        }
        assert(mask@ =~= self@.child_mask(parent_id@));
        let keys = self.todo_keys(false);
        let at = marked_positions(&mask);
        let order = order_positions(&keys, &at, false);
        let ghost target = self@.child_order(parent_id@);
        let mut subtasks: Vec<Todo> = Vec::new();
        let mut k: usize = 0;
        while k < order.len()
            invariant
                k <= order.len(),
                subtasks.len() == k,
                ints(order@) == target,
                forall|j: int| 0 <= j < order.len() ==> 0 <= #[trigger] ints(order@)[j] < self.todos.len(),
                forall|j: int|
                    0 <= j < k ==> (#[trigger] subtasks@[j])@ == self@.leaf(self@.todos[target[j]]),
            decreases order.len() - k,
        {
            assert(ints(order@)[k as int] == order@[k as int]);
            let row = &self.todos[order[k]];
            let tags = self.tags_for(&row.id);
            let none: Vec<Todo> = Vec::new();
            assert(rows_view(none@) =~= Seq::<TodoView>::empty());
            subtasks.push(to_todo(row, tags, none));
            k += 1;
        }
        subtasks
    }

    /// The todo at the position `at`, with its tags and its direct subtasks.
    pub(crate) fn assemble(&self, at: usize) -> (t: Todo)
        requires
            at < self@.todos.len(),
        ensures
            t@ == self@.assembled(self@.todos[at as int]),
    {
        let row = &self.todos[at];
        let tags = self.tags_for(&row.id);
        let subtasks = self.subtasks_for(&row.id);
        to_todo(row, tags, subtasks)
    }

    /// The todos at the positions `order`, each with its tags and subtasks.
    fn assemble_each(&self, order: &Vec<usize>) -> (out: Vec<Todo>)
        requires
            forall|j: int| 0 <= j < order.len() ==> 0 <= #[trigger] ints(order@)[j] < self@.todos.len(),
        ensures
            rows_view(out@) == self@.todos_at(ints(order@)),
    {
        let mut out: Vec<Todo> = Vec::new();
        let mut k: usize = 0;
        while k < order.len()
            invariant
                k <= order.len(),
                out.len() == k,
                forall|j: int|
                    0 <= j < order.len() ==> 0 <= #[trigger] ints(order@)[j] < self@.todos.len(),
                forall|j: int|
                    0 <= j < k ==> (#[trigger] out@[j])@ == self@.assembled(
                        self@.todos[ints(order@)[j]],
                    ),
            decreases order.len() - k,
        {
            assert(ints(order@)[k as int] == order@[k as int]);
            out.push(self.assemble(order[k]));
            k += 1;
        }
        out
    }

    /// The ids of the tags attached to the todo `todo_id`, in the order in which they
    /// were attached.
    pub fn get_todo_tags(&self, todo_id: &str) -> (r: Result<Vec<String>, StoreError>)
        requires
            self.wf(),
        ensures
            r matches Ok(tags) && tags.deep_view() == self@.tags_of(todo_id@),
    {
        let key = todo_id.to_owned();
        Ok(self.tags_for(&key))
    }

    /// The subtasks of `parent_id`, the oldest first. A subtask comes with its tags
    /// and without subtasks of its own.
    pub fn get_subtasks(&self, parent_id: &str) -> (r: Result<Vec<Todo>, StoreError>)
        requires
            self.wf(),
        ensures
            r matches Ok(list) && rows_view(list@) == self@.subtasks_of(parent_id@),
    {
        let key = parent_id.to_owned();
        Ok(self.subtasks_for(&key))
    }

    /// The todo `todo_id` with its tags and its direct subtasks. That no todo has the
    /// id is an error.
    pub fn get_todo(&self, todo_id: &str) -> (r: Result<Todo, StoreError>)
        requires
            self.wf(),
        ensures
            match r {
                Ok(t) => self@.todo(todo_id@) == Some(t@),
                Err(e) => e == StoreError::NotFound && self@.todo(todo_id@) is None,
            },
    {
        let key = todo_id.to_owned();
        match position(&self.todos, &key) {
            Some(at) => {
                Ok(self.assemble(at))
            },
            None => Err(StoreError::NotFound),
        }
    }

    /// All todos, subtasks among them, the most recently created first.
    pub fn get_todos(&self) -> (r: Result<Vec<Todo>, StoreError>)
        requires
            self.wf(),
        ensures
            r matches Ok(list) && rows_view(list@) == self@.all_todos(),
    {
        let keys = self.todo_keys(false);
        let mask = mark_all(self.todos.len());
        let at = marked_positions(&mask);
        let order = order_positions(&keys, &at, true);
        Ok(self.assemble_each(&order))
    }

    /// The todos that pass every filter of `query`, the most recently updated first.
    pub fn search_todos(&self, query: TodoSearchQuery) -> (r: Result<Vec<Todo>, StoreError>)
        requires
            self.wf(),
        ensures
            r matches Ok(list) && rows_view(list@) == self@.search_todos(query@),
    {
        let keyword = match &query.keyword {
            Some(k) => Some(chars_of(k.as_str())),
            None => None,
        };
        let mut mask: Vec<bool> = Vec::new();
        let mut i: usize = 0;
        while i < self.todos.len()
            invariant
                i <= self.todos.len(),
                mask.len() == i,
                match keyword {
                    Some(k) => query@.keyword == Some(k@),
                    None => query@.keyword is None,
                },
                forall|j: int| 0 <= j < i ==> mask@[j] == self@.todo_matches(self@.todos[j], query@),
            decreases self.todos.len() - i,
        {
            let row = &self.todos[i];
            let mut hit = passes(row, &query, &keyword);
            if hit {
                match &query.tags {
                    Some(tags) => {
                        if tags.len() > 0 {
                            hit = self.carries_one_of(&row.id, tags);
                        }
                    },
                    None => {},
                }
            }
            mask.push(hit);
            i += 1;
        }
        assert(mask@ =~= self@.todo_search_mask(query@));
        let keys = self.todo_keys(true);
        let at = marked_positions(&mask);
        let order = order_positions(&keys, &at, true);
        Ok(self.assemble_each(&order))
    }
}

} // verus!
