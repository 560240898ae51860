//! What holds of the store whatever it holds and whatever is asked of it.
//!
//! Each law is stated over [`StoreModel`], the value of the store, and over the
//! functions on it by which the operations of [`crate::database::Database`] state what
//! they do.
use vstd::prelude::*;
use crate::database::{distinct_relations, has_relation, mirror_of_all, StoreModel};
use crate::database::snippets::{new_snippet, snippet_of, snippet_row};
use crate::database::stats::{counted, open_mask, is_stats_of, lemma_count_within, Metric, metric_mask};
use crate::database::tags::new_tag;
use crate::database::folders::detached;
use crate::database::relations::{
    attach,
    attach_each,
    lemma_attach_each_appends,
    lemma_attach_each_has,
    lemma_attach_each_keeps,
    lemma_attach_each_only,
    lemma_picked_relations,
    no_repeats,
    others_mask,
    relation,
    tags_exist,
};
use crate::database::todo_changes::{new_todo_row, updated_todo_row};
use crate::database::todos::todo_of;
use crate::error::StoreError;
use crate::fields::or_kept;
use crate::json::{checked_encoding, or_none, strings_in};
use crate::model::folder::Folder;
use crate::model::snippet::{CreateSnippetRequestView, SearchQueryView, SnippetRow};
use crate::model::stats::TodoStatsView;
use crate::model::tag::{CreateTodoTagRequestView, TagRelationView, TodoTag, TodoTagView};
use crate::model::todo::{
    BatchTodoOperationView,
    CreateTodoRequestView,
    TodoRow,
    TodoRowView,
    TodoView,
    UpdateTodoRequestView,
};
use crate::ordering::laws::{
    lemma_marked,
    lemma_marked_tail,
    lemma_ordered_in_order,
    lemma_ordered_same_positions,
    lemma_ordered_stable,
};
use crate::ordering::{marked, picked};
use crate::palette::color_info;
use crate::table::{
    has_key,
    index_of,
    lemma_index_unique,
    lemma_picked_keys,
    lemma_push_fresh,
    lemma_same_keys,
    lemma_update_at,
    lookup,
};

verus! {

/// A snippet that has been created is read back as it was created: with every field of
/// the request, the tags in their order among them, not a favourite, never used, and
/// created and updated at the instant of its creation.
pub proof fn law_snippet_round_trip(db: StoreModel, id: Seq<char>, now: i64, req: CreateSnippetRequestView)
    requires
        db.wf(),
        db.create_snippet(id, now, req) is Ok,
    ensures
        db.create_snippet(id, now, req) matches Ok(done) && done.0.wf() && done.0.snippet(id)
            == Some(done.1) && done.1 == new_snippet(id, now, req),
{
    let tags = checked_encoding(req.tags)->0;
    let row = snippet_row(new_snippet(id, now, req), tags);
    lemma_push_fresh::<SnippetRow>(db.snippets, row);
    assert(strings_in(tags) == req.tags);
}

/// A snippet is created exactly where its id is free and its tag list has an encoding
/// from which it is read back.
pub proof fn law_snippet_is_created(db: StoreModel, id: Seq<char>, now: i64, req: CreateSnippetRequestView)
    ensures
        db.create_snippet(id, now, req) is Ok <==> !has_key::<SnippetRow>(db.snippets, id)
            && checked_encoding(req.tags) is Some,
{
}

/// A todo that has been created is read back as it was created: with the fields of the
/// request, its dependencies among them, the status `todo` where the request names
/// none, no progress, neither completed nor archived, and with the tags of the request
/// in their order where none of them is named twice.
pub proof fn law_todo_round_trip(db: StoreModel, id: Seq<char>, now: i64, req: CreateTodoRequestView)
    requires
        db.wf(),
        db.create_todo(id, now, req) is Ok,
    ensures
        db.create_todo(id, now, req) matches Ok(done) && {
            let next = done.0;
            let t = done.1;
            &&& next.wf()
            &&& next.todo(id) == Some(t)
            &&& t == todo_of(
                new_todo_row(id, now, req, checked_encoding(or_none(req.dependencies))->0),
                t.tags,
                t.subtasks,
            )
            &&& t.dependencies == or_none(req.dependencies)
            &&& t.status == or_kept(req.status, "todo"@)
            &&& t.created_at == now && t.updated_at == now
            &&& no_repeats(or_none(req.tags)) ==> t.tags == or_none(req.tags)
        },
{
    let dependencies = checked_encoding(or_none(req.dependencies))->0;
    let row = new_todo_row(id, now, req, dependencies);
    let tags = or_none(req.tags);
    let done = db.create_todo(id, now, req)->Ok_0;
    let next = done.0;
    lemma_push_fresh::<TodoRow>(db.todos, row);
    lemma_attach_each_keeps(next.todos, db.tags, db.relations, id, tags);
    assert(strings_in(dependencies) == or_none(req.dependencies));
    if no_repeats(tags) {
        lemma_attach_each_appends(db.relations, id, tags);
        let mask = next.relation_mask(id);
        lemma_marked_tail(mask, db.relations.len() as int);
    }
}

/// A tag that has just been created is read back as it was created: with the name and
/// the palette key of the request and the two colours of that key.
pub proof fn law_tag_round_trip(db: StoreModel, id: Seq<char>, now: i64, req: CreateTodoTagRequestView)
    requires
        db.wf(),
        !has_key::<TodoTag>(db.tags, id),
        color_info(req.color_id) is Some,
    ensures
        db.create_tag(id, now, req) matches Ok(done) && done.0.wf() && done.0.tag(id) == Some(done.1)
            && done.1 == new_tag(id, now, req, color_info(req.color_id)->0),
{
    let tag = new_tag(id, now, req, color_info(req.color_id)->0);
    lemma_push_fresh::<TodoTag>(db.tags, tag);
}

/// Attaching a tag that is attached already changes nothing: attaching is idempotent,
/// the relation is there afterwards, and it is there once.
pub proof fn law_attach_is_idempotent(
    relations: Seq<TagRelationView>,
    todo_id: Seq<char>,
    tag_id: Seq<char>,
)
    requires
        distinct_relations(relations),
    ensures
        has_relation(attach(relations, todo_id, tag_id), todo_id, tag_id),
        attach(attach(relations, todo_id, tag_id), todo_id, tag_id) == attach(
            relations,
            todo_id,
            tag_id,
        ),
        has_relation(relations, todo_id, tag_id) ==> attach(relations, todo_id, tag_id) == relations,
        distinct_relations(attach(relations, todo_id, tag_id)),
{
    let next = attach(relations, todo_id, tag_id);
    if !has_relation(relations, todo_id, tag_id) {
        assert(next[relations.len() as int] == relation(todo_id, tag_id));
    }
}

/// Attaching tags that are all attached already changes nothing.
pub proof fn law_attach_each_again(
    relations: Seq<TagRelationView>,
    todo_id: Seq<char>,
    tags: Seq<Seq<char>>,
)
    requires
        forall|k: int| 0 <= k < tags.len() ==> has_relation(relations, todo_id, #[trigger] tags[k]),
    ensures
        attach_each(relations, todo_id, tags) == relations,
    decreases tags.len(),
{
    if tags.len() > 0 {
        let front = tags.drop_last();
        law_attach_each_again(relations, todo_id, front);
    }
}

/// An update is refused only where no todo has its id or one of its tags does not
/// exist: a list that names a tag twice is accepted.
pub proof fn law_update_is_accepted(db: StoreModel, req: UpdateTodoRequestView, now: i64)
    ensures
        db.update_todo(req, now) is Ok <==> has_key::<TodoRow>(db.todos, req.id) && match req.tags {
            Some(tags) => tags_exist(db.tags, tags),
            None => true,
        },
{
}

/// An update that names tags attaches each of them once, however often the list names
/// it: the todo is read back with no tag twice, with every tag of the list and with no
/// other, and with the list itself where the list names no tag twice.
pub proof fn law_update_tags_once(db: StoreModel, req: UpdateTodoRequestView, now: i64)
    requires
        db.wf(),
        db.update_todo(req, now) is Ok,
        req.tags is Some,
    ensures
        ({
            let done = db.update_todo(req, now)->Ok_0;
            let tags = req.tags->0;
            let got = done.1.tags;
            &&& done.0.wf()
            &&& got == done.0.tags_of(req.id)
            &&& got.no_duplicates()
            &&& forall|k: int| 0 <= k < tags.len() ==> got.contains(#[trigger] tags[k])
            &&& forall|k: int| 0 <= k < got.len() ==> tags.contains(#[trigger] got[k])
            &&& no_repeats(tags) ==> got == tags
        }),
{
    let id = req.id;
    let tags = req.tags->0;
    let done = db.update_todo(req, now)->Ok_0;
    let next = done.0;
    let got = done.1.tags;
    let at = index_of::<TodoRow>(db.todos, id);
    let row = updated_todo_row(db.todos[at], req, now);
    lemma_index_unique::<TodoRow>(db.todos, id, at);
    lemma_update_at::<TodoRow>(db.todos, at, row);
    let others = others_mask(db.relations, id);
    let base = picked(db.relations, others);
    assert forall|i: int| 0 <= i < db.relations.len() && #[trigger] others[i] implies has_key::<TodoRow>(
        next.todos,
        db.relations[i].todo_id,
    ) && has_key::<TodoTag>(db.tags, db.relations[i].tag_id) by {
        assert(has_key::<TodoRow>(db.todos, db.relations[i].todo_id));
    }
    lemma_picked_relations(next.todos, db.tags, db.relations, others);
    lemma_attach_each_keeps(next.todos, db.tags, base, id, tags);
    lemma_marked(others);
    assert forall|i: int| 0 <= i < base.len() implies (#[trigger] base[i]).todo_id != id by {
        assert(base[i] == db.relations[marked(others)[i]]);
        assert(others[marked(others)[i]]);
    }
    let mask = next.relation_mask(id);
    let m = marked(mask);
    lemma_marked(mask);
    assert(got == Seq::new(m.len(), |k: int| next.relations[m[k]].tag_id));
    assert forall|a: int, b: int| 0 <= a < got.len() && 0 <= b < got.len() && a != b implies got[a]
        != got[b] by {
        assert(mask[m[a]] && mask[m[b]]);
        if a < b {
            assert(m[a] < m[b]);
        } else {
            assert(m[b] < m[a]);
        }
    }
    lemma_attach_each_has(base, id, tags);
    assert forall|k: int| 0 <= k < tags.len() implies got.contains(#[trigger] tags[k]) by {
        assert(has_relation(next.relations, id, tags[k]));
        let i = choose|i: int|
            0 <= i < next.relations.len() && (#[trigger] next.relations[i]).todo_id == id
                && next.relations[i].tag_id == tags[k];
        assert(mask[i]);
        assert(m.contains(i));
        let j = choose|j: int| 0 <= j < m.len() && m[j] == i;
        assert(got[j] == tags[k]);
    }
    lemma_attach_each_only(base, id, tags);
    assert forall|k: int| 0 <= k < got.len() implies tags.contains(#[trigger] got[k]) by {
        let r = next.relations[m[k]];
        assert(mask[m[k]]);
        if has_relation(base, r.todo_id, r.tag_id) {
            let i = choose|i: int|
                0 <= i < base.len() && (#[trigger] base[i]).todo_id == r.todo_id && base[i].tag_id
                    == r.tag_id;
            assert(base[i].todo_id != id);
        }
    }
    if no_repeats(tags) {
        lemma_attach_each_appends(base, id, tags);
        assert forall|i: int| 0 <= i < mask.len() implies #[trigger] mask[i] == (i >= base.len()) by {
            if i < base.len() {
                assert(next.relations[i] == base[i]);
            }
        }
        lemma_marked_tail(mask, base.len() as int);
        assert(got =~= tags);
    }
}

/// Creating a tag with a colour that the palette does not have is refused as a
/// validation error, whatever the store holds; a refused creation writes nothing.
pub proof fn law_unknown_color_is_refused(
    db: StoreModel,
    id: Seq<char>,
    now: i64,
    req: CreateTodoTagRequestView,
)
    requires
        color_info(req.color_id) is None,
    ensures
        db.create_tag(id, now, req) == Err::<(StoreModel, TodoTagView), _>(StoreError::UnknownColor),
        StoreError::UnknownColor.kind_of() == crate::error::ErrorKind::Validation,
{
}

/// In the figures of any set of todos, the completed and the pending todos add up to
/// the total, no more todos are completed than there are, and the counts of each
/// distribution add up to the total.
pub proof fn law_stats_add_up(
    stats: TodoStatsView,
    todos: Seq<TodoRowView>,
    today: Seq<char>,
    week_end: Seq<char>,
)
    requires
        is_stats_of(stats, todos, today, week_end),
    ensures
        stats.completed + stats.pending == stats.total,
        stats.completed <= stats.total,
        stats.total <= todos.len(),
        counted(stats.by_priority) == stats.total,
        counted(stats.by_project) == stats.total,
        counted(stats.by_assignee) == stats.total,
{
    assert(metric_mask(todos, Metric::Total, today, week_end) =~= open_mask(todos));
    lemma_count_within(
        metric_mask(todos, Metric::Completed, today, week_end),
        metric_mask(todos, Metric::Total, today, week_end),
    );
}

/// The search that asks for the language `language` and for nothing else.
pub open spec fn language_query(language: Seq<char>) -> SearchQueryView {
    SearchQueryView { keyword: Seq::empty(), language: Some(language), tags: None }
}

/// A search by language finds exactly the snippets of that language, each of them
/// once, the most recently updated first; snippets updated at the same instant come in
/// the order in which they were created.
pub proof fn law_language_search(db: StoreModel, language: Seq<char>)
    ensures
        ({
            let order = db.snippet_order(db.search_mask(language_query(language)));
            let found = db.search_snippets(language_query(language));
            &&& found.len() == order.len()
            &&& order.no_duplicates()
            &&& forall|k: int|
                0 <= k < found.len() ==> 0 <= #[trigger] order[k] < db.snippets.len() && found[k]
                    == snippet_of(db.snippets[order[k]]) && found[k].language == language
            &&& forall|i: int|
                0 <= i < db.snippets.len() && (#[trigger] db.snippets[i]).language == language
                    ==> order.contains(i)
            &&& forall|k: int, l: int|
                0 <= k < l < found.len() ==> (#[trigger] found[k]).updated_at >= (
                #[trigger] found[l]).updated_at
            &&& forall|k: int, l: int|
                0 <= k < l < found.len() && (#[trigger] found[k]).updated_at == (
                #[trigger] found[l]).updated_at ==> order[k] < order[l]
        }),
{
    let q = language_query(language);
    let mask = db.search_mask(q);
    let keys = db.snippet_keys();
    let order = db.snippet_order(mask);
    let found = db.search_snippets(q);
    lemma_marked(mask);
    lemma_ordered_same_positions(keys, marked(mask), true);
    lemma_ordered_in_order(keys, marked(mask), true);
    assert forall|k: int| 0 <= k < found.len() implies 0 <= #[trigger] order[k] < db.snippets.len()
        && found[k] == snippet_of(db.snippets[order[k]]) && found[k].language == language by {
        assert(order.contains(order[k]));
        let j = choose|j: int| 0 <= j < marked(mask).len() && marked(mask)[j] == order[k];
    }
    assert forall|i: int|
        0 <= i < db.snippets.len() && (#[trigger] db.snippets[i]).language == language implies order.contains(
        i,
    ) by {
        assert(mask[i]);
    }
    lemma_ordered_stable(keys, marked(mask), true);
}

/// The update of the todo `id` that sets the title and nothing else.
pub open spec fn title_update(id: Seq<char>, title: Seq<char>) -> UpdateTodoRequestView {
    UpdateTodoRequestView {
        id: id,
        title: Some(title),
        description: None,
        status: None,
        priority: None,
        due_date: None,
        estimated_hours: None,
        actual_hours: None,
        progress: None,
        completed: None,
        archived: None,
        tags: None,
    }
}

/// An update that sets only the title of a todo changes the title and the time of the
/// last update, and leaves every other field as it was: status, progress, tags,
/// subtasks and all the rest. The todo must not be its own parent, for then it is among
/// its own subtasks and is changed there too.
pub proof fn law_update_title_only(db: StoreModel, id: Seq<char>, title: Seq<char>, now: i64)
    requires
        db.wf(),
        has_key::<TodoRow>(db.todos, id),
        lookup::<TodoRow>(db.todos, id)->0.parent_id != Some(id),
    ensures
        db.update_todo(title_update(id, title), now) matches Ok(done) && db.todo(id) matches Some(
            before,
        ) && done.1 == (TodoView { title: title, updated_at: now, ..before }) && done.0.todo(id)
            == Some(done.1) && done.0.wf(),
{
    let req = title_update(id, title);
    let done = db.update_todo(req, now)->Ok_0;
    let next = done.0;
    assert(next.child_mask(id) =~= db.child_mask(id));
    assert(next.created_keys() =~= db.created_keys());
    let mask = db.child_mask(id);
    let order = db.child_order(id);
    lemma_marked(mask);
    lemma_ordered_same_positions(db.created_keys(), marked(mask), false);
    assert forall|k: int| 0 <= k < order.len() implies next.leaf(next.todos[#[trigger] order[k]])
        == db.leaf(db.todos[order[k]]) by {
        assert(order.contains(order[k]));
        let j = choose|j: int| 0 <= j < marked(mask).len() && marked(mask)[j] == order[k];
    }
    assert(next.subtasks_of(id) =~= db.subtasks_of(id));
}

/// What stays when todos are deleted: the store is well-formed; a todo is there
/// afterwards where it was there and is kept, and then it is unchanged; a relation is
/// there afterwards where its todo is; and no other table changes.
pub proof fn lemma_keeping_todos(db: StoreModel, keep: Seq<bool>)
    requires
        db.wf(),
        keep.len() == db.todos.len(),
    ensures
        db.keeping_todos(keep).wf(),
        forall|i: int|
            0 <= i < db.todos.len() ==> (has_key::<TodoRow>(
                db.keeping_todos(keep).todos,
                (#[trigger] db.todos[i]).id,
            ) <==> keep[i]),
        forall|i: int|
            0 <= i < db.todos.len() && keep[i] ==> lookup::<TodoRow>(
                db.keeping_todos(keep).todos,
                (#[trigger] db.todos[i]).id,
            ) == Some(db.todos[i]),
        forall|x: Seq<char>|
            !has_key::<TodoRow>(db.todos, x) ==> !#[trigger] has_key::<TodoRow>(
                db.keeping_todos(keep).todos,
                x,
            ),
        forall|j: int|
            0 <= j < db.relations.len() ==> (has_relation(
                db.keeping_todos(keep).relations,
                (#[trigger] db.relations[j]).todo_id,
                db.relations[j].tag_id,
            ) <==> has_key::<TodoRow>(db.keeping_todos(keep).todos, db.relations[j].todo_id)),
        db.keeping_todos(keep) == (StoreModel {
            todos: db.keeping_todos(keep).todos,
            relations: db.keeping_todos(keep).relations,
            ..db
        }),
{
    let next = db.keeping_todos(keep);
    lemma_picked_keys::<TodoRow>(db.todos, keep);
    let rmask = Seq::new(
        db.relations.len(),
        |i: int| has_key::<TodoRow>(next.todos, db.relations[i].todo_id),
    );
    lemma_marked(rmask);
    assert forall|j: int| 0 <= j < db.relations.len() implies (has_relation(
        next.relations,
        (#[trigger] db.relations[j]).todo_id,
        db.relations[j].tag_id,
    ) <==> has_key::<TodoRow>(next.todos, db.relations[j].todo_id)) by {
        let t = db.relations[j].todo_id;
        let g = db.relations[j].tag_id;
        if has_key::<TodoRow>(next.todos, t) {
            assert(rmask[j]);
            let k = choose|k: int| 0 <= k < marked(rmask).len() && marked(rmask)[k] == j;
            assert(next.relations[k] == db.relations[j]);
        }
        if has_relation(next.relations, t, g) {
            let k = choose|k: int|
                0 <= k < next.relations.len() && (#[trigger] next.relations[k]).todo_id == t
                    && next.relations[k].tag_id == g;
        }
    }
}

/// Deleting a todo deletes it and its direct subtasks, with their relations to tags,
/// and nothing below: every other todo, the subtasks of the subtasks among them, stays
/// as it was, and so does every relation of a todo that stays.
pub proof fn law_delete_todo_one_level(db: StoreModel, id: Seq<char>)
    requires
        db.wf(),
    ensures
        ({
            let next = db.delete_todo(id);
            &&& next.wf()
            &&& !has_key::<TodoRow>(next.todos, id)
            &&& forall|i: int|
                0 <= i < db.todos.len() && (#[trigger] db.todos[i]).parent_id == Some(id)
                    ==> !has_key::<TodoRow>(next.todos, db.todos[i].id)
            &&& forall|i: int|
                0 <= i < db.todos.len() && (#[trigger] db.todos[i]).id != id && db.todos[i].parent_id
                    != Some(id) ==> lookup::<TodoRow>(next.todos, db.todos[i].id) == Some(db.todos[i])
            &&& forall|j: int|
                0 <= j < db.relations.len() ==> (has_relation(
                    next.relations,
                    (#[trigger] db.relations[j]).todo_id,
                    db.relations[j].tag_id,
                ) <==> has_key::<TodoRow>(next.todos, db.relations[j].todo_id))
            &&& next.tags == db.tags
        }),
{
    let keep = db.outside_mask(id);
    lemma_keeping_todos(db, keep);
    let next = db.delete_todo(id);
}

/// A batch that deletes removes every todo it names and hands out an empty list; the
/// todos it does not name stay as they were.
pub proof fn law_batch_delete(db: StoreModel, op: BatchTodoOperationView, now: i64)
    requires
        db.wf(),
        op.operation == "delete"@,
    ensures
        db.batch(op, now) matches Ok(done) && {
            let next = done.0;
            &&& done.1.len() == 0
            &&& next == db.delete_each(op.todo_ids)
            &&& next.wf()
            &&& forall|k: int| 0 <= k < op.todo_ids.len() ==> !has_key::<TodoRow>(next.todos, #[trigger] op.todo_ids[k])
            &&& forall|i: int|
                0 <= i < db.todos.len() && !op.todo_ids.contains((#[trigger] db.todos[i]).id)
                    ==> lookup::<TodoRow>(next.todos, db.todos[i].id) == Some(db.todos[i])
        },
{
    reveal_strlit("delete");
    reveal_strlit("complete");
    reveal_strlit("archive");
    assert("delete"@.len() != "archive"@.len());
    let ids = op.todo_ids;
    let keep = db.unlisted_mask(ids);
    lemma_keeping_todos(db, keep);
    let next = db.delete_each(ids);
}

/// Deleting a folder deletes no snippet: every snippet stays where it stands, the
/// snippets of the folder without a folder and all others unchanged, and afterwards no
/// snippet refers to the folder.
pub proof fn law_delete_folder_detaches(db: StoreModel, id: Seq<char>)
    requires
        db.wf(),
    ensures
        ({
            let next = db.delete_folder(id);
            &&& next.wf()
            &&& !has_key::<Folder>(next.folders, id)
            &&& next.snippets.len() == db.snippets.len()
            &&& forall|i: int|
                0 <= i < db.snippets.len() ==> (#[trigger] next.snippets[i]) == detached(
                    db.snippets[i],
                    id,
                ) && next.snippets[i].folder_id != Some(id)
            &&& forall|x: Seq<char>| #[trigger]
                has_key::<SnippetRow>(next.snippets, x) <==> has_key::<SnippetRow>(db.snippets, x)
        }),
{
    let next = db.delete_folder(id);
    lemma_same_keys::<SnippetRow>(db.snippets, next.snippets);
    assert(mirror_of_all(next.snippets) =~= mirror_of_all(db.snippets));
}

/// A todo is handed out with exactly its direct subtasks, and these without subtasks
/// of their own: every subtask handed out has the todo as its parent, every todo that
/// has it as its parent is among them once, and none of them carries subtasks.
pub proof fn law_subtasks_one_level(db: StoreModel, parent_id: Seq<char>)
    requires
        db.wf(),
    ensures
        ({
            let order = db.child_order(parent_id);
            let subtasks = db.subtasks_of(parent_id);
            &&& subtasks.len() == order.len()
            &&& order.no_duplicates()
            &&& forall|k: int|
                0 <= k < subtasks.len() ==> 0 <= #[trigger] order[k] < db.todos.len() && subtasks[k]
                    == db.leaf(db.todos[order[k]]) && subtasks[k].parent_id == Some(parent_id)
                    && subtasks[k].subtasks.len() == 0
            &&& forall|i: int|
                0 <= i < db.todos.len() && (#[trigger] db.todos[i]).parent_id == Some(parent_id)
                    ==> order.contains(i)
            &&& forall|k: int, l: int|
                0 <= k < l < subtasks.len() ==> (#[trigger] subtasks[k]).created_at <= (
                #[trigger] subtasks[l]).created_at
        }),
{
    let mask = db.child_mask(parent_id);
    let keys = db.created_keys();
    let order = db.child_order(parent_id);
    let subtasks = db.subtasks_of(parent_id);
    lemma_marked(mask);
    lemma_ordered_same_positions(keys, marked(mask), false);
    lemma_ordered_in_order(keys, marked(mask), false);
    assert forall|k: int| 0 <= k < subtasks.len() implies 0 <= #[trigger] order[k] < db.todos.len()
        && subtasks[k] == db.leaf(db.todos[order[k]]) && subtasks[k].parent_id == Some(parent_id)
        && subtasks[k].subtasks.len() == 0 by {
        assert(order.contains(order[k]));
        let j = choose|j: int| 0 <= j < marked(mask).len() && marked(mask)[j] == order[k];
    }
    assert forall|i: int|
        0 <= i < db.todos.len() && (#[trigger] db.todos[i]).parent_id == Some(parent_id) implies order.contains(
        i,
    ) by {
        assert(mask[i]);
    }
}

} // verus!
