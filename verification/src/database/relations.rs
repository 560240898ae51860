//! The relations between todos and tags: attaching tags to a todo, replacing them, and
//! what keeps the relations unique and joined to rows that exist.
use vstd::prelude::*;
use crate::database::{Database, distinct_relations, has_relation, relations_resolve, StoreModel};
use crate::model::tag::{TagRelation, TagRelationView, TodoTag, TodoTagView};
use crate::model::todo::{TodoRow, TodoRowView};
use crate::ordering::laws::lemma_marked;
use crate::ordering::picked;
use crate::table::{has_key, pick, position, Stored};

verus! {

/// The relation between a todo and a tag.
pub open spec fn relation(todo_id: Seq<char>, tag_id: Seq<char>) -> TagRelationView {
    TagRelationView { todo_id: todo_id, tag_id: tag_id }
}

/// The relations with the tag `tag_id` attached to the todo `todo_id`. A relation that
/// is there already is not added again.
pub open spec fn attach(
    relations: Seq<TagRelationView>,
    todo_id: Seq<char>,
    tag_id: Seq<char>,
) -> Seq<TagRelationView> {
    if has_relation(relations, todo_id, tag_id) {
        relations
    } else {
        relations.push(relation(todo_id, tag_id))
    }
}

/// The relations with each of `tags` attached to the todo `todo_id`, one after the
/// other.
pub open spec fn attach_each(
    relations: Seq<TagRelationView>,
    todo_id: Seq<char>,
    tags: Seq<Seq<char>>,
) -> Seq<TagRelationView>
    decreases tags.len(),
{
    if tags.len() == 0 {
        relations
    } else {
        attach(attach_each(relations, todo_id, tags.drop_last()), todo_id, tags.last())
    }
}

/// Each of `ids` is the id of a tag.
pub open spec fn tags_exist(tags: Seq<TodoTagView>, ids: Seq<Seq<char>>) -> bool {
    forall|k: int| 0 <= k < ids.len() ==> has_key::<TodoTag>(tags, #[trigger] ids[k])
}

/// No id stands twice in `ids`.
pub open spec fn no_repeats(ids: Seq<Seq<char>>) -> bool {
    forall|i: int, j: int| 0 <= i < j < ids.len() ==> #[trigger] ids[i] != #[trigger] ids[j]
}

/// For each relation, whether it belongs to another todo than `todo_id`.
pub open spec fn others_mask(relations: Seq<TagRelationView>, todo_id: Seq<char>) -> Seq<bool> {
    Seq::new(relations.len(), |i: int| relations[i].todo_id != todo_id)
}

/// The relations once the tags of the todo `todo_id` are replaced by `tags`: the
/// relations of the other todos, with each of `tags` attached to the todo. A tag that
/// is named twice is attached once.
pub open spec fn retagged(
    relations: Seq<TagRelationView>,
    todo_id: Seq<char>,
    tags: Seq<Seq<char>>,
) -> Seq<TagRelationView> {
    attach_each(picked(relations, others_mask(relations, todo_id)), todo_id, tags)
}

/// The relations that a mask picks are unique as before, and resolved where each
/// picked relation joins rows that exist.
pub proof fn lemma_picked_relations(
    todos: Seq<TodoRowView>,
    tags: Seq<TodoTagView>,
    relations: Seq<TagRelationView>,
    mask: Seq<bool>,
)
    requires
        distinct_relations(relations),
        mask.len() == relations.len(),
        forall|i: int|
            0 <= i < relations.len() && #[trigger] mask[i] ==> has_key::<TodoRow>(
                todos,
                relations[i].todo_id,
            ) && has_key::<TodoTag>(tags, relations[i].tag_id),
    ensures
        distinct_relations(picked(relations, mask)),
        relations_resolve(todos, tags, picked(relations, mask)),
{
    lemma_marked(mask);
}

/// Attaching each of `tags` keeps the relations unique and resolved, where the todo
/// and the tags exist.
pub proof fn lemma_attach_each_keeps(
    todos: Seq<TodoRowView>,
    tags: Seq<TodoTagView>,
    relations: Seq<TagRelationView>,
    todo_id: Seq<char>,
    ids: Seq<Seq<char>>,
)
    requires
        distinct_relations(relations),
        relations_resolve(todos, tags, relations),
        has_key::<TodoRow>(todos, todo_id),
        forall|k: int| 0 <= k < ids.len() ==> has_key::<TodoTag>(tags, #[trigger] ids[k]),
    ensures
        distinct_relations(attach_each(relations, todo_id, ids)),
        relations_resolve(todos, tags, attach_each(relations, todo_id, ids)),
    decreases ids.len(),
{
    if ids.len() > 0 {
        let front = ids.drop_last();
        lemma_attach_each_keeps(todos, tags, relations, todo_id, front);
    }
}

/// Where the todo has no relation yet and no tag is named twice, attaching each of
/// `tags` appends one relation for each, in their order.
pub proof fn lemma_attach_each_appends(
    relations: Seq<TagRelationView>,
    todo_id: Seq<char>,
    tags: Seq<Seq<char>>,
)
    requires
        forall|i: int| 0 <= i < relations.len() ==> (#[trigger] relations[i]).todo_id != todo_id,
        no_repeats(tags),
    ensures
        attach_each(relations, todo_id, tags) == relations + Seq::new(
            tags.len(),
            |k: int| relation(todo_id, tags[k]),
        ),
    decreases tags.len(),
{
    if tags.len() == 0 {
    } else {
        let front = tags.drop_last();
        lemma_attach_each_appends(relations, todo_id, front);
    }
}

/// After attaching each of `tags` every one of them is attached, and what was attached
/// before still is.
pub proof fn lemma_attach_each_has(
    relations: Seq<TagRelationView>,
    todo_id: Seq<char>,
    tags: Seq<Seq<char>>,
)
    ensures
        forall|k: int|
            0 <= k < tags.len() ==> has_relation(
                attach_each(relations, todo_id, tags),
                todo_id,
                #[trigger] tags[k],
            ),
        forall|i: int|
            0 <= i < relations.len() ==> has_relation(
                attach_each(relations, todo_id, tags),
                (#[trigger] relations[i]).todo_id,
                relations[i].tag_id,
            ),
    decreases tags.len(),
{
    let out = attach_each(relations, todo_id, tags);
    if tags.len() > 0 {
        let front = tags.drop_last();
        let mid = attach_each(relations, todo_id, front);
        lemma_attach_each_has(relations, todo_id, front);
        assert forall|t: Seq<char>, g: Seq<char>| has_relation(mid, t, g) implies has_relation(
            out,
            t,
            g,
        ) by {
            let i = choose|i: int|
                0 <= i < mid.len() && (#[trigger] mid[i]).todo_id == t && mid[i].tag_id == g;
            assert(out[i] == mid[i]);
        }
        if !has_relation(mid, todo_id, tags.last()) {
            assert(out[mid.len() as int] == relation(todo_id, tags.last()));
        }
        assert forall|k: int| 0 <= k < tags.len() implies has_relation(
            out,
            todo_id,
            #[trigger] tags[k],
        ) by {
            if k < front.len() {
                assert(front[k] == tags[k]);
                assert(has_relation(mid, todo_id, front[k]));
            }
        }
        assert forall|i: int| 0 <= i < relations.len() implies has_relation(
            out,
            (#[trigger] relations[i]).todo_id,
            relations[i].tag_id,
        ) by {
            assert(has_relation(mid, relations[i].todo_id, relations[i].tag_id));
        }
    } else {
        assert forall|i: int| 0 <= i < relations.len() implies has_relation(
            out,
            (#[trigger] relations[i]).todo_id,
            relations[i].tag_id,
        ) by {
            assert(out[i] == relations[i]);
        }
    }
}

/// Attaching each of `tags` adds nothing else: a relation that is attached afterwards
/// was attached before, or joins the todo with one of `tags`.
pub proof fn lemma_attach_each_only(
    relations: Seq<TagRelationView>,
    todo_id: Seq<char>,
    tags: Seq<Seq<char>>,
)
    ensures
        forall|i: int|
            0 <= i < attach_each(relations, todo_id, tags).len() ==> has_relation(
                relations,
                (#[trigger] attach_each(relations, todo_id, tags)[i]).todo_id,
                attach_each(relations, todo_id, tags)[i].tag_id,
            ) || (attach_each(relations, todo_id, tags)[i].todo_id == todo_id && tags.contains(
                attach_each(relations, todo_id, tags)[i].tag_id,
            )),
    decreases tags.len(),
{
    let out = attach_each(relations, todo_id, tags);
    if tags.len() > 0 {
        let front = tags.drop_last();
        let mid = attach_each(relations, todo_id, front);
        lemma_attach_each_only(relations, todo_id, front);
        assert forall|i: int| 0 <= i < out.len() implies has_relation(
            relations,
            (#[trigger] out[i]).todo_id,
            out[i].tag_id,
        ) || (out[i].todo_id == todo_id && tags.contains(out[i].tag_id)) by {
            if i < mid.len() {
                assert(out[i] == mid[i]);
                if !has_relation(relations, mid[i].todo_id, mid[i].tag_id) {
                    let k = choose|k: int| 0 <= k < front.len() && front[k] == mid[i].tag_id;
                    assert(tags[k] == front[k]);
                }
            } else {
                assert(out[i] == relation(todo_id, tags.last()));
                assert(tags[tags.len() - 1] == tags.last());
            }
        }
    } else {
        assert forall|i: int| 0 <= i < out.len() implies has_relation(
            relations,
            (#[trigger] out[i]).todo_id,
            out[i].tag_id,
        ) by {
            assert(out[i] == relations[i]);
        }
    }
}

impl Database {
    /// Whether the relation `(todo_id, tag_id)` is there.
    pub(crate) fn has_relation(&self, todo_id: &String, tag_id: &String) -> (found: bool)
        ensures
            found == has_relation(self@.relations, todo_id@, tag_id@),
    {
        let mut i: usize = 0;
        while i < self.relations.len()
            invariant
                i <= self.relations.len(),
                forall|j: int|
                    0 <= j < i ==> !((#[trigger] self@.relations[j]).todo_id == todo_id@
                        && self@.relations[j].tag_id == tag_id@),
            decreases self.relations.len() - i,
        {
            if self.relations[i].todo_id == *todo_id && self.relations[i].tag_id == *tag_id {
                assert(self@.relations[i as int].todo_id == todo_id@);
                return true;
            }
            i += 1;
        }
        false
    }

    /// Whether each of `ids` is the id of a tag.
    pub(crate) fn tags_exist(&self, ids: &Vec<String>) -> (all: bool)
        ensures
            all == tags_exist(self@.tags, ids.deep_view()),
    {
        let ghost wanted = ids.deep_view();
        let mut k: usize = 0;
        while k < ids.len()
            invariant
                k <= ids.len(),
                wanted == ids.deep_view(),
                forall|j: int| 0 <= j < k ==> has_key::<TodoTag>(self@.tags, #[trigger] wanted[j]),
            decreases ids.len() - k,
        {
            if position(&self.tags, &ids[k]).is_none() {
                assert(!has_key::<TodoTag>(self@.tags, wanted[k as int]));
                return false;
            }
            k += 1;
        }
        true
    }

    /// Attaches each of `tags` to the todo `todo_id`. A tag that is attached already
    /// is passed over.
    pub(crate) fn attach_tags(&mut self, todo_id: &String, tags: &Vec<String>)
        requires
            old(self).wf(),
            has_key::<TodoRow>(old(self)@.todos, todo_id@),
            tags_exist(old(self)@.tags, tags.deep_view()),
        ensures
            final(self).wf(),
            final(self)@ == (StoreModel {
                relations: attach_each(old(self)@.relations, todo_id@, tags.deep_view()),
                ..old(self)@
            }),
    {
        let ghost start = old(self)@;
        let ghost wanted = tags.deep_view();
        let mut k: usize = 0;
        while k < tags.len()
            invariant
                k <= tags.len(),
                wanted == tags.deep_view(),
                start == old(self)@,
                start.wf(),
                has_key::<TodoRow>(start.todos, todo_id@),
                tags_exist(start.tags, wanted),
                self@ == (StoreModel {
                    relations: attach_each(start.relations, todo_id@, wanted.take(k as int)),
                    ..start
                }),
                distinct_relations(self@.relations),
                relations_resolve(start.todos, start.tags, self@.relations),
            decreases tags.len() - k,
        {
            proof {
                assert(wanted.take(k + 1).drop_last() =~= wanted.take(k as int));
            }
            if !self.has_relation(todo_id, &tags[k]) {
                self.relations.push(TagRelation { todo_id: todo_id.clone(), tag_id: tags[k].clone() });
            }
            assert(self@ =~= (StoreModel {
                relations: attach_each(start.relations, todo_id@, wanted.take(k + 1)),
                ..start
            }));
            k += 1;
        }
        assert(wanted.take(tags.len() as int) =~= wanted);
    }

    /// Replaces the tags of the todo `todo_id` by `tags`. A tag that is named twice is
    /// attached once.
    pub(crate) fn retag(&mut self, todo_id: &String, tags: &Vec<String>)
        requires
            old(self).wf(),
            has_key::<TodoRow>(old(self)@.todos, todo_id@),
            tags_exist(old(self)@.tags, tags.deep_view()),
        ensures
            final(self).wf(),
            final(self)@ == (StoreModel {
                relations: retagged(old(self)@.relations, todo_id@, tags.deep_view()),
                ..old(self)@
            }),
    {
        let ghost start = old(self)@;
        let mut mask: Vec<bool> = Vec::new();
        let mut i: usize = 0;
        while i < self.relations.len()
            invariant
                i <= self.relations.len(),
                mask.len() == i,
                self@ == start,
                forall|j: int| 0 <= j < i ==> mask@[j] == (start.relations[j].todo_id != todo_id@),
            decreases self.relations.len() - i,
        {
            mask.push(self.relations[i].todo_id != *todo_id);
            i += 1;
        }
        assert(mask@ =~= others_mask(start.relations, todo_id@));
        let others = pick(&self.relations, &mask);
        proof {
            lemma_picked_relations(start.todos, start.tags, start.relations, mask@);
        }
        self.relations = others;
        assert(self@ =~= (StoreModel {
            relations: picked(start.relations, others_mask(start.relations, todo_id@)),
            ..start
        }));
        self.attach_tags(todo_id, tags);
    }
}

} // verus!
