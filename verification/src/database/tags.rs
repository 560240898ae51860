//! Tags: create, list, read, update and delete. A tag takes its colours from the
//! palette; deleting a tag detaches it from every todo.
use vstd::prelude::*;
use crate::database::{Database, StoreModel};
use crate::database::relations::lemma_picked_relations;
use crate::error::StoreError;
use crate::fields::{or_kept, pick_text};
use crate::ident::{fresh_id, now_millis};
use crate::model::tag::{
    CreateTodoTagRequest,
    CreateTodoTagRequestView,
    TagColorInfo,
    TagColorInfoView,
    TodoTag,
    TodoTagView,
    UpdateTodoTagRequest,
    UpdateTodoTagRequestView,
};
use crate::ordering::{
    full_mask,
    ints,
    keys_view,
    mark_all,
    marked,
    marked_positions,
    order_positions,
    ordered,
    OrderKey,
    OrderKeyView,
    picked,
};
use crate::palette::{color_info, tag_color_info};
use crate::table::{
    has_key,
    lemma_push_fresh,
    lemma_remove_at,
    lemma_update_at,
    lookup,
    pick,
    position,
    replaced,
    rows_view,
    Stored,
    without,
};

verus! {

/// The tag that a request creates under the id `id` at the time `now`, with the
/// colours `info` of its palette key.
pub open spec fn new_tag(
    id: Seq<char>,
    now: i64,
    req: CreateTodoTagRequestView,
    info: TagColorInfoView,
) -> TodoTagView {
    TodoTagView {
        id: id,
        name: req.name,
        color: info.color,
        bg_color: info.bg_color,
        color_id: req.color_id,
        created_at: now,
    }
}

/// The tag `tag` after the update `req`: the name is replaced where the request sets
/// it, and the palette key with both colours where the request sets the key.
pub open spec fn updated_tag(tag: TodoTagView, req: UpdateTodoTagRequestView) -> TodoTagView {
    let named = TodoTagView { name: or_kept(req.name, tag.name), ..tag };
    match req.color_id {
        Some(key) => match color_info(key) {
            Some(info) => TodoTagView {
                color: info.color,
                bg_color: info.bg_color,
                color_id: key,
                ..named
            },
            None => named,
        },
        None => named,
    }
}

impl StoreModel {
    /// The tag with the id `id`, if there is one.
    pub open spec fn tag(self, id: Seq<char>) -> Option<TodoTagView> {
        lookup::<TodoTag>(self.tags, id)
    }

    /// Creating a tag under the id `id` at the time `now`: refused where the palette
    /// does not have the colour, and where the id is taken; otherwise the tag is
    /// appended.
    pub open spec fn create_tag(self, id: Seq<char>, now: i64, req: CreateTodoTagRequestView) -> Result<
        (StoreModel, TodoTagView),
        StoreError,
    > {
        match color_info(req.color_id) {
            None => Err(StoreError::UnknownColor),
            Some(info) => if has_key::<TodoTag>(self.tags, id) {
                Err(StoreError::DuplicateKey)
            } else {
                let tag = new_tag(id, now, req, info);
                Ok((StoreModel { tags: self.tags.push(tag), ..self }, tag))
            },
        }
    }

    /// Why an update of a tag is refused, if it is: the palette does not have the new
    /// colour, the update sets nothing, or no tag has the id.
    pub open spec fn refuses_tag_update(self, req: UpdateTodoTagRequestView) -> Option<StoreError> {
        if req.color_id is Some && color_info(req.color_id->0) is None {
            Some(StoreError::UnknownColor)
        } else if req.name is None && req.color_id is None {
            Some(StoreError::EmptyUpdate)
        } else if !has_key::<TodoTag>(self.tags, req.id) {
            Some(StoreError::NotFound)
        } else {
            None
        }
    }

    /// Updating a tag: the updated tag takes the place of the stored one.
    pub open spec fn update_tag(self, req: UpdateTodoTagRequestView) -> Result<
        (StoreModel, TodoTagView),
        StoreError,
    > {
        match self.refuses_tag_update(req) {
            Some(e) => Err(e),
            None => {
                let tag = updated_tag(lookup::<TodoTag>(self.tags, req.id)->0, req);
                Ok((StoreModel { tags: replaced::<TodoTag>(self.tags, req.id, tag), ..self }, tag))
            },
        }
    }

    /// For each relation, whether it joins another tag than `id`.
    pub open spec fn other_tag_mask(self, id: Seq<char>) -> Seq<bool> {
        Seq::new(self.relations.len(), |i: int| self.relations[i].tag_id != id)
    }

    /// The store without the tag `id` and without its relations to todos.
    pub open spec fn delete_tag(self, id: Seq<char>) -> StoreModel {
        StoreModel {
            tags: without::<TodoTag>(self.tags, id),
            relations: picked(self.relations, self.other_tag_mask(id)),
            ..self
        }
    }

    /// The keys by which tags are listed: the time of their creation.
    pub open spec fn tag_keys(self) -> Seq<OrderKeyView> {
        Seq::new(self.tags.len(), |i: int| OrderKeyView::Number(self.tags[i].created_at as int))
    }

    /// All tags, the oldest first.
    pub open spec fn all_tags(self) -> Seq<TodoTagView> {
        let order = ordered(self.tag_keys(), marked(full_mask(self.tags.len())), false);
        Seq::new(order.len(), |k: int| self.tags[order[k]])
    }
}

impl Database {
    /// The colours of the palette key `color_id`. A key that the palette does not have
    /// is an error.
    pub fn get_tag_color_info(&self, color_id: &str) -> (r: Result<TagColorInfo, StoreError>)
        ensures
            match r {
                Ok(info) => color_info(color_id@) == Some(info@),
                Err(e) => e == StoreError::UnknownColor && color_info(color_id@) is None,
            },
    {
        tag_color_info(color_id)
    }

    /// Creates the tag of `req` under the id `id` at the time `now`. Nothing is written
    /// where the tag is refused.
    pub fn insert_todo_tag(&mut self, id: String, now: i64, req: CreateTodoTagRequest) -> (r: Result<
        TodoTag,
        StoreError,
    >)
        requires
            old(self).wf(),
        ensures
            final(self).wf(),
            match r {
                Ok(tag) => old(self)@.create_tag(id@, now, req@) == Ok::<_, StoreError>(
                    (final(self)@, tag@),
                ),
                Err(e) => old(self)@.create_tag(id@, now, req@) == Err::<(StoreModel, TodoTagView), _>(e)
                    && final(self)@ == old(self)@,
            },
    {
        let info = match tag_color_info(req.color_id.as_str()) {
            Ok(info) => info,
            Err(e) => {
                return Err(e);
            },
        };
        if position(&self.tags, &id).is_some() {
            return Err(StoreError::DuplicateKey);
        }
        let tag = TodoTag {
            id: id,
            name: req.name,
            color: info.color,
            bg_color: info.bg_color,
            color_id: req.color_id,
            created_at: now,
        };
        let row = tag.dup();
        proof {
            lemma_push_fresh::<TodoTag>(old(self)@.tags, row@);
        }
        self.tags.push(row);
        proof {
            assert(self@.tags =~= old(self)@.tags.push(tag@));
        }
        Ok(tag)
    }

    /// Creates a tag under a fresh id, with the current time as the time of its
    /// creation. A colour that the palette does not have is refused, and nothing is
    /// written.
    pub fn create_todo_tag(&mut self, req: CreateTodoTagRequest) -> (r: Result<TodoTag, StoreError>)
        requires
            old(self).wf(),
        ensures
            final(self).wf(),
            match r {
                Ok(tag) => {
                    &&& tag@.id.len() == 36
                    &&& old(self)@.create_tag(tag@.id, tag@.created_at, req@) == Ok::<_, StoreError>(
                        (final(self)@, tag@),
                    )
                },
                Err(e) => {
                    &&& final(self)@ == old(self)@
                    &&& exists|id: Seq<char>, now: i64|
                        id.len() == 36 && #[trigger] old(self)@.create_tag(id, now, req@) == Err::<
                            (StoreModel, TodoTagView),
                            _,
                        >(e)
                    &&& e == StoreError::UnknownColor || e == StoreError::DuplicateKey
                    &&& e == StoreError::UnknownColor <==> color_info(req@.color_id) is None
                },
            },
    {
        let id = fresh_id();
        let now = now_millis();
        let ghost key = id@;
        let r = self.insert_todo_tag(id, now, req);
        proof {
            if r is Ok {
                assert(old(self)@.create_tag(key, now, req@) is Ok);
                assert(r->Ok_0@.id == key);
            } else {
                assert(key.len() == 36 && old(self)@.create_tag(key, now, req@) == Err::<
                    (StoreModel, TodoTagView),
                    _,
                >(r->Err_0));
            }
        }
        r
    }

    /// All tags, the oldest first.
    pub fn get_todo_tags_list(&self) -> (r: Result<Vec<TodoTag>, StoreError>)
        requires
            self.wf(),
        ensures
            r matches Ok(list) && rows_view(list@) == self@.all_tags(),
    {
        let mut keys: Vec<OrderKey> = Vec::new();
        let mut i: usize = 0;
        while i < self.tags.len()
            invariant
                i <= self.tags.len(),
                keys.len() == i,
                forall|j: int|
                    0 <= j < i ==> (#[trigger] keys@[j])@ == OrderKeyView::Number(
                        self.tags@[j].created_at as int,
                    ),
            decreases self.tags.len() - i,
        {
            keys.push(OrderKey::Number(self.tags[i].created_at));
            i += 1;
        }
        assert(keys_view(keys@) =~= self@.tag_keys());
        let mask = mark_all(self.tags.len());
        let positions = marked_positions(&mask);
        let order = order_positions(&keys, &positions, false);
        let ghost target = ordered(self@.tag_keys(), marked(full_mask(self@.tags.len())), false);
        let mut out: Vec<TodoTag> = Vec::new();
        let mut k: usize = 0;
        while k < order.len()
            invariant
                k <= order.len(),
                out.len() == k,
                ints(order@) == target,
                forall|j: int| 0 <= j < order.len() ==> 0 <= #[trigger] ints(order@)[j] < self.tags.len(),
                forall|j: int| 0 <= j < k ==> (#[trigger] out@[j])@ == self@.tags[target[j]],
            decreases order.len() - k,
        {
            assert(ints(order@)[k as int] == order@[k as int]);
            out.push(self.tags[order[k]].dup());
            k += 1;
        }
        Ok(out)
    }

    /// The tag `tag_id`. That no tag has the id is an error.
    pub fn get_todo_tag(&self, tag_id: &str) -> (r: Result<TodoTag, StoreError>)
        requires
            self.wf(),
        ensures
            match r {
                Ok(tag) => self@.tag(tag_id@) == Some(tag@),
                Err(e) => e == StoreError::NotFound && self@.tag(tag_id@) is None,
            },
    {
        let key = tag_id.to_owned();
        match position(&self.tags, &key) {
            Some(at) => {
                Ok(self.tags[at].dup())
            },
            None => Err(StoreError::NotFound),
        }
    }

    /// Updates the name of a tag, its colour, or both. The colours are resolved again
    /// only where the request sets the palette key. Nothing is written where the update
    /// is refused.
    pub fn update_todo_tag(&mut self, req: UpdateTodoTagRequest) -> (r: Result<TodoTag, StoreError>)
        requires
            old(self).wf(),
        ensures
            final(self).wf(),
            match r {
                Ok(tag) => old(self)@.update_tag(req@) == Ok::<_, StoreError>((final(self)@, tag@)),
                Err(e) => old(self)@.update_tag(req@) == Err::<(StoreModel, TodoTagView), _>(e)
                    && final(self)@ == old(self)@,
            },
    {
        let info = match &req.color_id {
            Some(key) => match tag_color_info(key.as_str()) {
                Ok(info) => Some(info),
                Err(e) => {
                    return Err(e);
                },
            },
            None => None,
        };
        if req.name.is_none() && req.color_id.is_none() {
            return Err(StoreError::EmptyUpdate);
        }
        let at = match position(&self.tags, &req.id) {
            Some(at) => at,
            None => {
                return Err(StoreError::NotFound);
            },
        };
        let current = &self.tags[at];
        let name = pick_text(&req.name, &current.name);
        let tag = match (info, req.color_id) {
            (Some(info), Some(key)) => TodoTag {
                id: current.id.clone(),
                name: name,
                color: info.color,
                bg_color: info.bg_color,
                color_id: key,
                created_at: current.created_at,
            },
            _ => TodoTag {
                id: current.id.clone(),
                name: name,
                color: current.color.clone(),
                bg_color: current.bg_color.clone(),
                color_id: current.color_id.clone(),
                created_at: current.created_at,
            },
        };
        let row = tag.dup();
        proof {
            lemma_update_at::<TodoTag>(old(self)@.tags, at as int, row@);
        }
        self.tags.set(at, row);
        proof {
            assert(self@.tags =~= old(self)@.tags.update(at as int, tag@));
        }
        Ok(tag)
    }

    /// Deletes the tag `tag_id` and detaches it from every todo. Deleting a tag that is
    /// not there changes nothing.
    pub fn delete_todo_tag(&mut self, tag_id: String) -> (r: Result<(), StoreError>)
        requires
            old(self).wf(),
        ensures
            final(self).wf(),
            r is Ok,
            final(self)@ == old(self)@.delete_tag(tag_id@),
    {
        let ghost start = old(self)@;
        match position(&self.tags, &tag_id) {
            Some(at) => {
                proof {
                    lemma_remove_at::<TodoTag>(start.tags, at as int);
                }
                self.tags.remove(at);
            },
            None => {},
        }
        let mut mask: Vec<bool> = Vec::new();
        let mut i: usize = 0;
        while i < self.relations.len()
            invariant
                i <= self.relations.len(),
                mask.len() == i,
                self@ == (StoreModel { tags: without::<TodoTag>(start.tags, tag_id@), ..start }),
                forall|j: int| 0 <= j < i ==> mask@[j] == (start.relations[j].tag_id != tag_id@),
            decreases self.relations.len() - i,
        {
            mask.push(self.relations[i].tag_id != tag_id);
            i += 1;
        }
        assert(mask@ =~= start.other_tag_mask(tag_id@));
        let relations = pick(&self.relations, &mask);
        proof {
            lemma_picked_relations(self@.todos, self@.tags, start.relations, mask@);
        }
        self.relations = relations;
        Ok(())
    }
}

} // verus!
