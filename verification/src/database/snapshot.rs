//! The rows of the store as plain data, for keeping them elsewhere and bringing them
//! back. Rows that are brought back are checked: a store is made of them only where
//! they are well-formed.
use vstd::prelude::*;
use crate::database::{
    Database,
    distinct_paths,
    distinct_relations,
    mirror_of,
    mirror_of_all,
    relations_resolve,
    StoreModel,
};
use crate::error::StoreError;
use crate::model::folder::Folder;
use crate::model::project::ProjectRow;
use crate::model::repository::RepositoryRow;
use crate::model::snippet::{MirrorRow, SnippetRow};
use crate::model::tag::{TagRelation, TodoTag};
use crate::model::todo::TodoRow;
use crate::model::workspace::WorkspaceRow;
use crate::ordering::laws::lemma_marked;
use crate::ordering::{marked, picked};
use crate::table::{copy_rows, distinct_keys, has_key, keys_distinct, pick, position, rows_view};

verus! {

/// The rows of every table, in the order of their insertion. The search mirror is not
/// among them: it follows from the snippets.
pub struct Snapshot {
    pub snippets: Vec<SnippetRow>,
    pub folders: Vec<Folder>,
    pub workspaces: Vec<WorkspaceRow>,
    pub projects: Vec<ProjectRow>,
    pub repositories: Vec<RepositoryRow>,
    pub todos: Vec<TodoRow>,
    pub tags: Vec<TodoTag>,
    pub relations: Vec<TagRelation>,
}

impl View for Snapshot {
    type V = StoreModel;

    open spec fn view(&self) -> StoreModel {
        StoreModel {
            snippets: rows_view(self.snippets@),
            search_mirror: mirror_of_all(rows_view(self.snippets@)),
            folders: rows_view(self.folders@),
            workspaces: rows_view(self.workspaces@),
            projects: rows_view(self.projects@),
            repositories: rows_view(self.repositories@),
            todos: rows_view(self.todos@),
            tags: rows_view(self.tags@),
            relations: rows_view(self.relations@),
        }
    }
}

impl StoreModel {
    /// Ids are unique within each table, no two repositories share a path, and no
    /// relation stands twice.
    pub open spec fn unique(self) -> bool {
        &&& distinct_keys::<SnippetRow>(self.snippets)
        &&& distinct_keys::<Folder>(self.folders)
        &&& distinct_keys::<WorkspaceRow>(self.workspaces)
        &&& distinct_keys::<ProjectRow>(self.projects)
        &&& distinct_keys::<RepositoryRow>(self.repositories)
        &&& distinct_paths(self.repositories)
        &&& distinct_keys::<TodoRow>(self.todos)
        &&& distinct_keys::<TodoTag>(self.tags)
        &&& distinct_relations(self.relations)
    }
}

/// Whether no two repositories have the same path.
fn paths_distinct(rows: &Vec<RepositoryRow>) -> (distinct: bool)
    ensures
        distinct == distinct_paths(rows_view(rows@)),
{
    let ghost all = rows_view(rows@);
    let mut j: usize = 0;
    while j < rows.len()
        invariant
            j <= rows.len(),
            all == rows_view(rows@),
            forall|a: int, b: int| 0 <= a < b < j ==> (#[trigger] all[a]).path != (#[trigger] all[b]).path,
        decreases rows.len() - j,
    {
        let mut i: usize = 0;
        while i < j
            invariant
                i <= j,
                j < rows.len(),
                all == rows_view(rows@),
                forall|a: int| 0 <= a < i ==> (#[trigger] all[a]).path != all[j as int].path,
            decreases j - i,
        {
            if rows[i].path == rows[j].path {
                assert(all[i as int].path == all[j as int].path);
                return false;
            }
            i += 1;
        }
        j += 1;
    }
    true
}

/// Whether no relation stands twice.
fn relations_distinct(rows: &Vec<TagRelation>) -> (distinct: bool)
    ensures
        distinct == distinct_relations(rows_view(rows@)),
{
    let ghost all = rows_view(rows@);
    let mut j: usize = 0;
    while j < rows.len()
        invariant
            j <= rows.len(),
            all == rows_view(rows@),
            forall|a: int, b: int|
                0 <= a < b < j ==> !((#[trigger] all[a]).todo_id == (#[trigger] all[b]).todo_id
                    && all[a].tag_id == all[b].tag_id),
        decreases rows.len() - j,
    {
        let mut i: usize = 0;
        while i < j
            invariant
                i <= j,
                j < rows.len(),
                all == rows_view(rows@),
                forall|a: int|
                    0 <= a < i ==> !((#[trigger] all[a]).todo_id == all[j as int].todo_id && all[a].tag_id
                        == all[j as int].tag_id),
            decreases j - i,
        {
            if rows[i].todo_id == rows[j].todo_id && rows[i].tag_id == rows[j].tag_id {
                assert(all[i as int].todo_id == all[j as int].todo_id);
                return false;
            }
            i += 1;
        }
        j += 1;
    }
    true
}

/// Whether every relation joins a todo that exists with a tag that exists.
fn relations_resolved(todos: &Vec<TodoRow>, tags: &Vec<TodoTag>, relations: &Vec<TagRelation>) -> (resolved:
    bool)
    ensures
        resolved == relations_resolve(rows_view(todos@), rows_view(tags@), rows_view(relations@)),
{
    let ghost all = rows_view(relations@);
    let mut i: usize = 0;
    while i < relations.len()
        invariant
            i <= relations.len(),
            all == rows_view(relations@),
            forall|j: int|
                0 <= j < i ==> has_key::<TodoRow>(rows_view(todos@), (#[trigger] all[j]).todo_id)
                    && has_key::<TodoTag>(rows_view(tags@), all[j].tag_id),
        decreases relations.len() - i,
    {
        if position(todos, &relations[i].todo_id).is_none() || position(
            tags,
            &relations[i].tag_id,
        ).is_none() {
            assert(!(has_key::<TodoRow>(rows_view(todos@), all[i as int].todo_id) && has_key::<TodoTag>(
                rows_view(tags@),
                all[i as int].tag_id,
            )));
            return false;
        }
        i += 1;
    }
    true
}

impl StoreModel {
    /// For each relation, whether it joins a todo and a tag that exist.
    pub open spec fn resolving_mask(self) -> Seq<bool> {
        Seq::new(
            self.relations.len(),
            |i: int|
                has_key::<TodoRow>(self.todos, self.relations[i].todo_id) && has_key::<TodoTag>(
                    self.tags,
                    self.relations[i].tag_id,
                ),
        )
    }

    /// The store without the relations that join a todo or a tag that does not exist.
    pub open spec fn resolved(self) -> StoreModel {
        StoreModel { relations: picked(self.relations, self.resolving_mask()), ..self }
    }
}

impl Snapshot {
    /// The rows without the relations that join a todo or a tag that is not among the
    /// rows. Every relation that is left joins rows that exist.
    pub fn without_dangling(self) -> (r: Snapshot)
        ensures
            r@ == self@.resolved(),
            relations_resolve(r@.todos, r@.tags, r@.relations),
    {
        let mut mask: Vec<bool> = Vec::new();
        let mut i: usize = 0;
        while i < self.relations.len()
            invariant
                i <= self.relations.len(),
                mask.len() == i,
                forall|j: int| 0 <= j < i ==> mask@[j] == self@.resolving_mask()[j],
            decreases self.relations.len() - i,
        {
            let relation = &self.relations[i];
            mask.push(
                position(&self.todos, &relation.todo_id).is_some() && position(
                    &self.tags,
                    &relation.tag_id,
                ).is_some(),
            );
            i += 1;
        }
        assert(mask@ =~= self@.resolving_mask());
        let relations = pick(&self.relations, &mask);
        proof {
            lemma_marked(mask@);
            let kept = picked(self@.relations, mask@);
            assert forall|i: int| 0 <= i < kept.len() implies has_key::<TodoRow>(
                self@.todos,
                (#[trigger] kept[i]).todo_id,
            ) && has_key::<TodoTag>(self@.tags, kept[i].tag_id) by {
                assert(kept[i] == self@.relations[marked(mask@)[i]]);
                assert(mask@[marked(mask@)[i]]);
            }
        }
        let Snapshot { snippets, folders, workspaces, projects, repositories, todos, tags, relations: _ } =
            self;
        let r = Snapshot {
            snippets: snippets,
            folders: folders,
            workspaces: workspaces,
            projects: projects,
            repositories: repositories,
            todos: todos,
            tags: tags,
            relations: relations,
        };
        assert(r@ =~= self@.resolved());
        r
    }
}

impl Database {
    /// A copy of the rows of every table.
    pub fn snapshot(&self) -> (s: Snapshot)
        requires
            self.wf(),
        ensures
            s@ == self@,
    {
        let s = Snapshot {
            snippets: copy_rows(&self.snippets),
            folders: copy_rows(&self.folders),
            workspaces: copy_rows(&self.workspaces),
            projects: copy_rows(&self.projects),
            repositories: copy_rows(&self.repositories),
            todos: copy_rows(&self.todos),
            tags: copy_rows(&self.tags),
            relations: copy_rows(&self.relations),
        };
        s
    }

    /// The store that holds the rows of `s`. The rows are refused where an id, a
    /// repository's path or a relation stands twice, and where a relation joins a todo
    /// or a tag that is not among the rows.
    pub fn restore(s: Snapshot) -> (r: Result<Database, StoreError>)
        ensures
            match r {
                Ok(db) => db.wf() && db@ == s@,
                Err(e) => !s@.wf() && e == if s@.unique() {
                    StoreError::MissingReference
                } else {
                    StoreError::DuplicateKey
                },
            },
    {
        if !(keys_distinct(&s.snippets) && keys_distinct(&s.folders) && keys_distinct(&s.workspaces)
            && keys_distinct(&s.projects) && keys_distinct(&s.repositories) && paths_distinct(
            &s.repositories,
        ) && keys_distinct(&s.todos) && keys_distinct(&s.tags) && relations_distinct(&s.relations)) {
            return Err(StoreError::DuplicateKey);
        }
        if !relations_resolved(&s.todos, &s.tags, &s.relations) {
            return Err(StoreError::MissingReference);
        }
        let mut search_mirror: Vec<MirrorRow> = Vec::new();
        let mut i: usize = 0;
        while i < s.snippets.len()
            invariant
                i <= s.snippets.len(),
                search_mirror.len() == i,
                forall|j: int| 0 <= j < i ==> (#[trigger] search_mirror@[j])@ == mirror_of(s.snippets@[j]@),
            decreases s.snippets.len() - i,
        {
            let row = &s.snippets[i];
            search_mirror.push(
                MirrorRow {
                    id: row.id.clone(),
                    title: row.title.clone(),
                    description: row.description.clone(),
                    code: row.code.clone(),
                    tags: row.tags.clone(),
                },
            );
            i += 1;
        }
        let Snapshot { snippets, folders, workspaces, projects, repositories, todos, tags, relations } = s;
        let db = Database {
            snippets: snippets,
            search_mirror: search_mirror,
            folders: folders,
            workspaces: workspaces,
            projects: projects,
            repositories: repositories,
            todos: todos,
            tags: tags,
            relations: relations,
        };
        assert(db@ =~= s@);
        Ok(db)
    }
}

} // verus!
