//! Snippets: create, read, list, update, delete and search.
use vstd::prelude::*;
use crate::database::{Database, mirror_of, mirror_of_all, StoreModel};
use crate::error::StoreError;
use crate::fields::{copy_opt, or_kept, or_kept_opt, pick_opt, pick_text};
use crate::ident::{fresh_id, now_millis};
use crate::json::{checked_encoding, decode_strings, encode_strings, strings_in};
use crate::model::snippet::{
    CodeSnippet,
    CodeSnippetView,
    CreateSnippetRequest,
    CreateSnippetRequestView,
    MirrorRow,
    SearchQuery,
    SearchQueryView,
    SnippetRow,
    SnippetRowView,
    UpdateSnippetRequest,
    UpdateSnippetRequestView,
};
use crate::ordering::{
    full_mask,
    ints,
    keys_view,
    mark_all,
    marked,
    marked_positions,
    order_positions,
    ordered,
    OrderKey,
    OrderKeyView,
};
use crate::table::{
    copy_rows,
    has_key,
    lemma_update_at,
    lookup,
    opt_view,
    position,
    replaced,
    rows_view,
    without,
};
use crate::text::{chars_of, chars_of_each, contains_text, has_substring, str_contains};

verus! {

/// The snippet that a stored row stands for. A tag list that cannot be read stands for
/// no tags.
pub open spec fn snippet_of(row: SnippetRowView) -> CodeSnippetView {
    CodeSnippetView {
        id: row.id,
        title: row.title,
        description: row.description,
        code: row.code,
        language: row.language,
        tags: strings_in(row.tags),
        folder_id: row.folder_id,
        project_id: row.project_id,
        is_favorite: row.is_favorite,
        usage_count: row.usage_count,
        created_at: row.created_at,
        updated_at: row.updated_at,
    }
}

/// The row under which a snippet is stored, with `tags` as the text of its tag list.
pub open spec fn snippet_row(s: CodeSnippetView, tags: Seq<char>) -> SnippetRowView {
    SnippetRowView {
        id: s.id,
        title: s.title,
        description: s.description,
        code: s.code,
        language: s.language,
        tags: tags,
        folder_id: s.folder_id,
        project_id: s.project_id,
        is_favorite: s.is_favorite,
        usage_count: s.usage_count,
        created_at: s.created_at,
        updated_at: s.updated_at,
    }
}

/// The snippet that a request creates under the id `id` at the time `now`: not a
/// favourite, never used, created and updated at the same instant.
pub open spec fn new_snippet(id: Seq<char>, now: i64, req: CreateSnippetRequestView) -> CodeSnippetView {
    CodeSnippetView {
        id: id,
        title: req.title,
        description: req.description,
        code: req.code,
        language: req.language,
        tags: req.tags,
        folder_id: req.folder_id,
        project_id: req.project_id,
        is_favorite: false,
        usage_count: 0,
        created_at: now,
        updated_at: now,
    }
}

/// The snippet `current` after the update `req` at the time `now`: every field that
/// the request sets is taken from it, every other field stays, and the time of the
/// update is `now`. A folder or project reference can be changed and not cleared.
pub open spec fn merged_snippet(
    current: CodeSnippetView,
    req: UpdateSnippetRequestView,
    now: i64,
) -> CodeSnippetView {
    CodeSnippetView {
        id: current.id,
        title: or_kept(req.title, current.title),
        description: or_kept(req.description, current.description),
        code: or_kept(req.code, current.code),
        language: or_kept(req.language, current.language),
        tags: or_kept(req.tags, current.tags),
        folder_id: or_kept_opt(req.folder_id, current.folder_id),
        project_id: or_kept_opt(req.project_id, current.project_id),
        is_favorite: or_kept(req.is_favorite, current.is_favorite),
        usage_count: or_kept(req.usage_count, current.usage_count),
        created_at: current.created_at,
        updated_at: now,
    }
}

/// Each text of `needles` is a substring of `hay`.
pub open spec fn contains_each(hay: Seq<char>, needles: Seq<Seq<char>>) -> bool {
    forall|k: int| 0 <= k < needles.len() ==> contains_text(hay, #[trigger] needles[k])
}

/// Whether a snippet passes the filters of a search: the keyword, where it is not
/// empty, occurs in the title, the description or the code; the language, where it is
/// set, is the snippet's; and each of the tags, where they are set, occurs in the text
/// of the snippet's tag list.
pub open spec fn snippet_matches(row: SnippetRowView, q: SearchQueryView) -> bool {
    &&& q.keyword.len() == 0 || contains_text(row.title, q.keyword) || contains_text(
        row.description,
        q.keyword,
    ) || contains_text(row.code, q.keyword)
    &&& match q.language {
        Some(language) => row.language == language,
        None => true,
    }
    &&& match q.tags {
        Some(tags) => contains_each(row.tags, tags),
        None => true,
    }
}

impl StoreModel {
    /// The snippet with the id `id`, if there is one.
    pub open spec fn snippet(self, id: Seq<char>) -> Option<CodeSnippetView> {
        match lookup::<SnippetRow>(self.snippets, id) {
            Some(row) => Some(snippet_of(row)),
            None => None,
        }
    }

    /// The store with the snippets `rows`, and the search mirror that belongs to them.
    pub open spec fn with_snippets(self, rows: Seq<SnippetRowView>) -> StoreModel {
        StoreModel { snippets: rows, search_mirror: mirror_of_all(rows), ..self }
    }

    /// Creating the snippet of `req` under the id `id` at the time `now`: refused where
    /// the id is taken, and where the tag list has no encoding from which it is read
    /// back; otherwise the row, with the tag list encoded, is appended.
    pub open spec fn create_snippet(self, id: Seq<char>, now: i64, req: CreateSnippetRequestView) -> Result<
        (StoreModel, CodeSnippetView),
        StoreError,
    > {
        if has_key::<SnippetRow>(self.snippets, id) {
            Err(StoreError::DuplicateKey)
        } else {
            match checked_encoding(req.tags) {
                None => Err(StoreError::Encoding),
                Some(tags) => {
                    let s = new_snippet(id, now, req);
                    Ok((self.with_snippets(self.snippets.push(snippet_row(s, tags))), s))
                },
            }
        }
    }

    /// Why an update of a snippet is refused, if it is: no snippet has the id, or the
    /// new tag list has no encoding from which it is read back.
    pub open spec fn refuses_snippet_update(self, req: UpdateSnippetRequestView) -> Option<StoreError> {
        match self.snippet(req.id) {
            None => Some(StoreError::NotFound),
            Some(current) => if checked_encoding(or_kept(req.tags, current.tags)) is None {
                Some(StoreError::Encoding)
            } else {
                None
            },
        }
    }

    /// Updating a snippet at the time `now`: the merged snippet, with its tag list
    /// encoded, takes the place of the stored one.
    pub open spec fn update_snippet(self, req: UpdateSnippetRequestView, now: i64) -> Result<
        (StoreModel, CodeSnippetView),
        StoreError,
    > {
        match self.refuses_snippet_update(req) {
            Some(e) => Err(e),
            None => {
                let s = merged_snippet(self.snippet(req.id)->0, req, now);
                let tags = checked_encoding(s.tags)->0;
                Ok(
                    (
                        self.with_snippets(
                            replaced::<SnippetRow>(self.snippets, req.id, snippet_row(s, tags)),
                        ),
                        s,
                    ),
                )
            },
        }
    }

    /// The store without the snippet `id`.
    pub open spec fn delete_snippet(self, id: Seq<char>) -> StoreModel {
        self.with_snippets(without::<SnippetRow>(self.snippets, id))
    }

    /// The keys by which snippets are listed: the time of the last update.
    pub open spec fn snippet_keys(self) -> Seq<OrderKeyView> {
        Seq::new(self.snippets.len(), |i: int| OrderKeyView::Number(self.snippets[i].updated_at as int))
    }

    /// The positions of the snippets that `mask` marks, the most recently updated first.
    pub open spec fn snippet_order(self, mask: Seq<bool>) -> Seq<int> {
        ordered(self.snippet_keys(), marked(mask), true)
    }

    /// The snippets that `mask` marks, the most recently updated first.
    pub open spec fn listed_snippets(self, mask: Seq<bool>) -> Seq<CodeSnippetView> {
        let order = self.snippet_order(mask);
        Seq::new(order.len(), |k: int| snippet_of(self.snippets[order[k]]))
    }

    /// All snippets, the most recently updated first.
    pub open spec fn all_snippets(self) -> Seq<CodeSnippetView> {
        self.listed_snippets(full_mask(self.snippets.len()))
    }

    /// For each snippet, whether it passes the filters of `q`.
    pub open spec fn search_mask(self, q: SearchQueryView) -> Seq<bool> {
        Seq::new(self.snippets.len(), |i: int| snippet_matches(self.snippets[i], q))
    }

    /// The snippets that pass the filters of `q`, the most recently updated first.
    pub open spec fn search_snippets(self, q: SearchQueryView) -> Seq<CodeSnippetView> {
        self.listed_snippets(self.search_mask(q))
    }

    /// For each snippet, whether it belongs to the project `project_id`.
    pub open spec fn project_mask(self, project_id: Seq<char>) -> Seq<bool> {
        Seq::new(self.snippets.len(), |i: int| self.snippets[i].project_id == Some(project_id))
    }

    /// The snippets of the project `project_id`, the most recently updated first.
    pub open spec fn snippets_by_project(self, project_id: Seq<char>) -> Seq<CodeSnippetView> {
        self.listed_snippets(self.project_mask(project_id))
    }
}

/// The snippet that a stored row stands for.
fn to_snippet(row: &SnippetRow) -> (s: CodeSnippet)
    ensures
        s@ == snippet_of(row@),
{
    CodeSnippet {
        id: row.id.clone(),
        title: row.title.clone(),
        description: row.description.clone(),
        code: row.code.clone(),
        language: row.language.clone(),
        tags: decode_strings(row.tags.as_str()),
        folder_id: copy_opt(&row.folder_id),
        project_id: copy_opt(&row.project_id),
        is_favorite: row.is_favorite,
        usage_count: row.usage_count,
        created_at: row.created_at,
        updated_at: row.updated_at,
    }
}

/// The row under which a snippet is stored.
fn to_snippet_row(s: &CodeSnippet, tags: String) -> (row: SnippetRow)
    ensures
        row@ == snippet_row(s@, tags@),
{
    SnippetRow {
        id: s.id.clone(),
        title: s.title.clone(),
        description: s.description.clone(),
        code: s.code.clone(),
        language: s.language.clone(),
        tags: tags,
        folder_id: copy_opt(&s.folder_id),
        project_id: copy_opt(&s.project_id),
        is_favorite: s.is_favorite,
        usage_count: s.usage_count,
        created_at: s.created_at,
        updated_at: s.updated_at,
    }
}

/// The row of the search mirror that belongs to a snippet.
fn to_mirror_row(row: &SnippetRow) -> (m: MirrorRow)
    ensures
        m@ == mirror_of(row@),
{
    MirrorRow {
        id: row.id.clone(),
        title: row.title.clone(),
        description: row.description.clone(),
        code: row.code.clone(),
        tags: row.tags.clone(),
    }
}

/// Whether a stored snippet passes the filters of a search.
fn passes(row: &SnippetRow, q: &SearchQuery, keyword: &Vec<char>, tags: &Option<Vec<Vec<char>>>) -> (hit:
    bool)
    requires
        keyword@ == q@.keyword,
        match tags {
            Some(list) => q.tags is Some && list.len() == q.tags->0.len() && forall|k: int|
                0 <= k < list.len() ==> (#[trigger] list@[k])@ == q.tags->0@[k]@,
            None => q.tags is None,
        },
    ensures
        hit == snippet_matches(row@, q@),
{
    if keyword.len() > 0 {
        if !str_contains(row.title.as_str(), keyword) && !str_contains(
            row.description.as_str(),
            keyword,
        ) && !str_contains(row.code.as_str(), keyword) {
            return false;
        }
    }
    match &q.language {
        Some(language) => {
            if row.language != *language {
                return false;
            }
        },
        None => {},
    }
    match tags {
        Some(list) => {
            let stored = chars_of(row.tags.as_str());
            let ghost wanted = q@.tags->0;
            let mut k: usize = 0;
            while k < list.len()
                invariant
                    k <= list.len(),
                    stored@ == row@.tags,
                    q@.tags == Some(wanted),
                    list.len() == wanted.len(),
                    forall|j: int| 0 <= j < list.len() ==> (#[trigger] list@[j])@ == wanted[j],
                    forall|j: int| 0 <= j < k ==> contains_text(row@.tags, #[trigger] wanted[j]),
                decreases list.len() - k,
            {
                if !has_substring(&stored, &list[k]) {
                    return false;
                }
                k += 1;
            }
        },
        None => {},
    }
    true
}

impl Database {
    /// In a well-formed store the search mirror has a row for each snippet.
    proof fn lemma_mirror_in_step(&self)
        requires
            self.wf(),
        ensures
            self.search_mirror@.len() == self.snippets@.len(),
            forall|i: int|
                0 <= i < self.snippets@.len() ==> #[trigger] self@.search_mirror[i] == mirror_of(
                    self@.snippets[i],
                ),
    {
        assert(self@.search_mirror.len() == mirror_of_all(self@.snippets).len());
    }

    /// The search mirror: for each snippet, in the order of the snippets, the columns
    /// that a text search reads.
    pub fn search_mirror(&self) -> (rows: Vec<MirrorRow>)
        requires
            self.wf(),
        ensures
            rows_view(rows@) == mirror_of_all(self@.snippets),
    {
        copy_rows(&self.search_mirror)
    }

    /// The snippets that `mask` marks, the most recently updated first.
    fn list_snippets(&self, mask: &Vec<bool>) -> (out: Vec<CodeSnippet>)
        requires
            mask.len() == self@.snippets.len(),
        ensures
            rows_view(out@) == self@.listed_snippets(mask@),
    {
        let mut keys: Vec<OrderKey> = Vec::new();
        let mut i: usize = 0;
        while i < self.snippets.len()
            invariant
                i <= self.snippets.len(),
                keys.len() == i,
                forall|j: int|
                    0 <= j < i ==> (#[trigger] keys@[j])@ == OrderKeyView::Number(
                        self.snippets@[j].updated_at as int,
                    ),
            decreases self.snippets.len() - i,
        {
            keys.push(OrderKey::Number(self.snippets[i].updated_at));
            i += 1;
        }
        assert(keys_view(keys@) =~= self@.snippet_keys());
        let positions = marked_positions(mask);
        let order = order_positions(&keys, &positions, true);
        let ghost target = self@.snippet_order(mask@);
        let mut out: Vec<CodeSnippet> = Vec::new();
        let mut k: usize = 0;
        while k < order.len()
            invariant
                k <= order.len(),
                out.len() == k,
                ints(order@) == target,
                forall|j: int| 0 <= j < order.len() ==> 0 <= #[trigger] ints(order@)[j] < self.snippets.len(),
                forall|j: int|
                    0 <= j < k ==> (#[trigger] out@[j])@ == snippet_of(self@.snippets[target[j]]),
            decreases order.len() - k,
        {
            assert(ints(order@)[k as int] == order@[k as int]);
            out.push(to_snippet(&self.snippets[order[k]]));
            k += 1;
        }
        out
    }

    /// Creates the snippet of `req` under the id `id` at the time `now`. Nothing is
    /// written where the id is taken or the tag list cannot be encoded.
    pub fn insert_snippet(&mut self, id: String, now: i64, req: CreateSnippetRequest) -> (r: Result<
        CodeSnippet,
        StoreError,
    >)
        requires
            old(self).wf(),
        ensures
            final(self).wf(),
            match r {
                Ok(s) => old(self)@.create_snippet(id@, now, req@) == Ok::<_, StoreError>(
                    (final(self)@, s@),
                ),
                Err(e) => old(self)@.create_snippet(id@, now, req@) == Err::<
                    (StoreModel, CodeSnippetView),
                    _,
                >(e) && final(self)@ == old(self)@,
            },
    {
        if position(&self.snippets, &id).is_some() {
            return Err(StoreError::DuplicateKey);
        }
        let tags = match encode_strings(&req.tags) {
            Some(text) => text,
            None => {
                return Err(StoreError::Encoding);
            },
        };
        let s = CodeSnippet {
            id: id,
            title: req.title,
            description: req.description,
            code: req.code,
            language: req.language,
            tags: req.tags,
            folder_id: req.folder_id,
            project_id: req.project_id,
            is_favorite: false,
            usage_count: 0,
            created_at: now,
            updated_at: now,
        };
        let row = to_snippet_row(&s, tags);
        let mirror = to_mirror_row(&row);
        proof {
            self.lemma_mirror_in_step();
        }
        self.snippets.push(row);
        self.search_mirror.push(mirror);
        proof {
            let rows = old(self)@.snippets.push(row@);
            assert forall|i: int| 0 <= i < rows.len() implies #[trigger] self@.search_mirror[i]
                == mirror_of(rows[i]) by {
                if i < old(self)@.snippets.len() {
                    assert(self@.search_mirror[i] == old(self)@.search_mirror[i]);
                }
            }
            assert(self@ =~= old(self)@.with_snippets(rows));
        }
        Ok(s)
    }

    /// Creates a snippet under a fresh id, with the current time as the time of its
    /// creation and of its last update.
    pub fn create_snippet(&mut self, req: CreateSnippetRequest) -> (r: Result<CodeSnippet, StoreError>)
        requires
            old(self).wf(),
        ensures
            final(self).wf(),
            match r {
                Ok(s) => {
                    &&& s@.id.len() == 36
                    &&& old(self)@.create_snippet(s@.id, s@.created_at, req@) == Ok::<_, StoreError>(
                        (final(self)@, s@),
                    )
                },
                Err(e) => {
                    &&& final(self)@ == old(self)@
                    &&& exists|id: Seq<char>, now: i64|
                        id.len() == 36 && #[trigger] old(self)@.create_snippet(id, now, req@) == Err::<
                            (StoreModel, CodeSnippetView),
                            _,
                        >(e)
                    &&& e == StoreError::DuplicateKey || (e == StoreError::Encoding
                        && checked_encoding(req@.tags) is None)
                },
            },
    {
        let id = fresh_id();
        let now = now_millis();
        let ghost key = id@;
        let r = self.insert_snippet(id, now, req);
        proof {
            if r is Ok {
                assert(old(self)@.create_snippet(key, now, req@) is Ok);
                assert(r->Ok_0@.id == key);
            } else {
                assert(key.len() == 36 && old(self)@.create_snippet(key, now, req@) == Err::<
                    (StoreModel, CodeSnippetView),
                    _,
                >(r->Err_0));
            }
        }
        r
    }

    /// All snippets, the most recently updated first.
    pub fn get_all_snippets(&self) -> (r: Result<Vec<CodeSnippet>, StoreError>)
        requires
            self.wf(),
        ensures
            r matches Ok(list) && rows_view(list@) == self@.all_snippets(),
    {
        let mask = mark_all(self.snippets.len());
        Ok(self.list_snippets(&mask))
    }

    /// The snippet with the id `id`; `None` where there is none, which is no error.
    pub fn get_snippet(&self, id: &str) -> (r: Result<Option<CodeSnippet>, StoreError>)
        requires
            self.wf(),
        ensures
            r matches Ok(found) && opt_view(found) == self@.snippet(id@),
    {
        let key = id.to_owned();
        match position(&self.snippets, &key) {
            Some(at) => {
                Ok(Some(to_snippet(&self.snippets[at])))
            },
            None => Ok(None),
        }
    }

    /// Updates the snippet `req.id` at the time `now`: the fields that the request sets
    /// are replaced, the others stay. Nothing is written where no snippet has the id or
    /// the new tag list cannot be encoded.
    pub fn update_snippet_at(&mut self, req: UpdateSnippetRequest, now: i64) -> (r: Result<
        CodeSnippet,
        StoreError,
    >)
        requires
            old(self).wf(),
        ensures
            final(self).wf(),
            match r {
                Ok(s) => old(self)@.update_snippet(req@, now) == Ok::<_, StoreError>((final(self)@, s@)),
                Err(e) => old(self)@.update_snippet(req@, now) == Err::<
                    (StoreModel, CodeSnippetView),
                    _,
                >(e) && final(self)@ == old(self)@,
            },
    {
        let at = match position(&self.snippets, &req.id) {
            Some(at) => at,
            None => {
                return Err(StoreError::NotFound);
            },
        };
        let current = to_snippet(&self.snippets[at]);
        let s = CodeSnippet {
            id: current.id,
            title: pick_text(&req.title, &current.title),
            description: pick_text(&req.description, &current.description),
            code: pick_text(&req.code, &current.code),
            language: pick_text(&req.language, &current.language),
            tags: match req.tags {
                Some(tags) => tags,
                None => current.tags,
            },
            folder_id: pick_opt(&req.folder_id, &current.folder_id),
            project_id: pick_opt(&req.project_id, &current.project_id),
            is_favorite: match req.is_favorite {
                Some(v) => v,
                None => current.is_favorite,
            },
            usage_count: match req.usage_count {
                Some(v) => v,
                None => current.usage_count,
            },
            created_at: current.created_at,
            updated_at: now,
        };
        let tags = match encode_strings(&s.tags) {
            Some(text) => text,
            None => {
                return Err(StoreError::Encoding);
            },
        };
        let row = to_snippet_row(&s, tags);
        let mirror = to_mirror_row(&row);
        proof {
            lemma_update_at::<SnippetRow>(old(self)@.snippets, at as int, row@);
            self.lemma_mirror_in_step();
        }
        self.snippets.set(at, row);
        self.search_mirror.set(at, mirror);
        proof {
            let rows = old(self)@.snippets.update(at as int, row@);
            assert forall|i: int| 0 <= i < rows.len() implies #[trigger] self@.search_mirror[i]
                == mirror_of(rows[i]) by {
                if i != at {
                    assert(self@.search_mirror[i] == old(self)@.search_mirror[i]);
                }
            }
            assert(self@ =~= old(self)@.with_snippets(rows));
        }
        Ok(s)
    }

    /// Updates a snippet, with the current time as the time of the update.
    pub fn update_snippet(&mut self, req: UpdateSnippetRequest) -> (r: Result<CodeSnippet, StoreError>)
        requires
            old(self).wf(),
        ensures
            final(self).wf(),
            match r {
                Ok(s) => old(self)@.update_snippet(req@, s@.updated_at) == Ok::<_, StoreError>(
                    (final(self)@, s@),
                ),
                Err(e) => old(self)@.refuses_snippet_update(req@) == Some(e) && final(self)@ == old(
                    self,
                )@,
            },
    {
        let now = now_millis();
        self.update_snippet_at(req, now)
    }

    /// Deletes the snippet `id`, and with it its row in the search mirror. Deleting a
    /// snippet that is not there changes nothing.
    pub fn delete_snippet(&mut self, id: &str) -> (r: Result<(), StoreError>)
        requires
            old(self).wf(),
        ensures
            final(self).wf(),
            r is Ok,
            final(self)@ == old(self)@.delete_snippet(id@),
    {
        let key = id.to_owned();
        match position(&self.snippets, &key) {
            Some(at) => {
                proof {
                    self.lemma_mirror_in_step();
                }
                self.snippets.remove(at);
                self.search_mirror.remove(at);
                proof {
                    let rows = old(self)@.snippets.remove(at as int);
                    assert forall|i: int| 0 <= i < rows.len() implies #[trigger] self@.search_mirror[i]
                        == mirror_of(rows[i]) by {
                        let j = if i < at { i } else { i + 1 };
                        assert(self@.search_mirror[i] == old(self)@.search_mirror[j]);
                    }
                    assert(self@ =~= old(self)@.with_snippets(rows));
                }
            },
            None => {
            },
        }
        Ok(())
    }

    /// The snippets that pass every filter of `query`, the most recently updated first.
    pub fn search_snippets(&self, query: SearchQuery) -> (r: Result<Vec<CodeSnippet>, StoreError>)
        requires
            self.wf(),
        ensures
            r matches Ok(list) && rows_view(list@) == self@.search_snippets(query@),
    {
        let keyword = chars_of(query.keyword.as_str());
        let tags = match &query.tags {
            Some(list) => Some(chars_of_each(list)),
            None => None,
        };
        let mut mask: Vec<bool> = Vec::new();
        let mut i: usize = 0;
        while i < self.snippets.len()
            invariant
                i <= self.snippets.len(),
                mask.len() == i,
                keyword@ == query@.keyword,
                match tags {
                    Some(list) => query.tags is Some && list.len() == query.tags->0.len()
                        && forall|k: int|
                        0 <= k < list.len() ==> (#[trigger] list@[k])@ == query.tags->0@[k]@,
                    None => query.tags is None,
                },
                forall|j: int| 0 <= j < i ==> mask@[j] == snippet_matches(self@.snippets[j], query@),
            decreases self.snippets.len() - i,
        {
            mask.push(passes(&self.snippets[i], &query, &keyword, &tags));
            i += 1;
        }
        assert(mask@ =~= self@.search_mask(query@));
        Ok(self.list_snippets(&mask))
    }

    /// The snippets of the project `project_id`, the most recently updated first.
    pub fn get_snippets_by_project(&self, project_id: String) -> (r: Result<
        Vec<CodeSnippet>,
        StoreError,
    >)
        requires
            self.wf(),
        ensures
            r matches Ok(list) && rows_view(list@) == self@.snippets_by_project(project_id@),
    {
        let mut mask: Vec<bool> = Vec::new();
        let mut i: usize = 0;
        while i < self.snippets.len()
            invariant
                i <= self.snippets.len(),
                mask.len() == i,
                forall|j: int|
                    0 <= j < i ==> mask@[j] == (self@.snippets[j].project_id == Some(project_id@)),
            decreases self.snippets.len() - i,
        {
            let hit = match &self.snippets[i].project_id {
                Some(p) => *p == project_id,
                None => false,
            };
            mask.push(hit);
            i += 1;
        }
        assert(mask@ =~= self@.project_mask(project_id@));
        Ok(self.list_snippets(&mask))
    }
}

} // verus!
