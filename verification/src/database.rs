//! The store: its tables, what holds of them at all times, and how it is created.
//!
//! The operations on each kind of entity stand in the submodules. Each of them states
//! what it does as a function on [`StoreModel`], the value of the store.
use vstd::prelude::*;
use crate::model::folder::{Folder, FolderView};
use crate::model::project::{ProjectRow, ProjectRowView};
use crate::model::repository::{RepositoryRow, RepositoryRowView};
use crate::model::snippet::{MirrorRow, MirrorRowView, SnippetRow, SnippetRowView};
use crate::model::tag::{TagRelation, TagRelationView, TodoTag, TodoTagView};
use crate::model::todo::{TodoRow, TodoRowView};
use crate::model::workspace::{WorkspaceRow, WorkspaceRowView};
use crate::table::{distinct_keys, has_key, rows_view};

pub mod batches;
pub mod folders;
pub mod projects;
pub mod relations;
pub mod repositories;
pub mod snapshot;
pub mod snippets;
pub mod stats;
pub mod tags;
pub mod todo_changes;
pub mod todos;
pub mod workspaces;

verus! {

/// The value of the store: every table as the list of its rows, in the order in which
/// the rows were inserted.
#[verifier::ext_equal]
pub ghost struct StoreModel {
    pub snippets: Seq<SnippetRowView>,
    pub search_mirror: Seq<MirrorRowView>,
    pub folders: Seq<FolderView>,
    pub workspaces: Seq<WorkspaceRowView>,
    pub projects: Seq<ProjectRowView>,
    pub repositories: Seq<RepositoryRowView>,
    pub todos: Seq<TodoRowView>,
    pub tags: Seq<TodoTagView>,
    pub relations: Seq<TagRelationView>,
}

/// The row of the search mirror that belongs to a snippet.
pub open spec fn mirror_of(row: SnippetRowView) -> MirrorRowView {
    MirrorRowView {
        id: row.id,
        title: row.title,
        description: row.description,
        code: row.code,
        tags: row.tags,
    }
}

/// The search mirror that belongs to a table of snippets: one row for each snippet, in
/// the same order.
pub open spec fn mirror_of_all(rows: Seq<SnippetRowView>) -> Seq<MirrorRowView> {
    Seq::new(rows.len(), |i: int| mirror_of(rows[i]))
}

/// No two repositories have the same path.
pub open spec fn distinct_paths(rows: Seq<RepositoryRowView>) -> bool {
    forall|i: int, j: int| 0 <= i < j < rows.len() ==> (#[trigger] rows[i]).path != (#[trigger] rows[j]).path
}

/// Some repository has the path `path`.
pub open spec fn has_path(rows: Seq<RepositoryRowView>, path: Seq<char>) -> bool {
    exists|i: int| 0 <= i < rows.len() && (#[trigger] rows[i]).path == path
}

/// The relation `(todo_id, tag_id)` is among `relations`.
pub open spec fn has_relation(
    relations: Seq<TagRelationView>,
    todo_id: Seq<char>,
    tag_id: Seq<char>,
) -> bool {
    exists|i: int|
        0 <= i < relations.len() && (#[trigger] relations[i]).todo_id == todo_id && relations[i].tag_id
            == tag_id
}

/// No relation stands twice in `relations`.
pub open spec fn distinct_relations(relations: Seq<TagRelationView>) -> bool {
    forall|i: int, j: int|
        0 <= i < j < relations.len() ==> !((#[trigger] relations[i]).todo_id == (
        #[trigger] relations[j]).todo_id && relations[i].tag_id == relations[j].tag_id)
}

/// Every relation joins a todo that exists with a tag that exists.
pub open spec fn relations_resolve(
    todos: Seq<TodoRowView>,
    tags: Seq<TodoTagView>,
    relations: Seq<TagRelationView>,
) -> bool {
    forall|i: int|
        0 <= i < relations.len() ==> has_key::<TodoRow>(todos, (#[trigger] relations[i]).todo_id)
            && has_key::<TodoTag>(tags, relations[i].tag_id)
}

impl StoreModel {
    /// The store with no rows.
    pub open spec fn empty() -> StoreModel {
        StoreModel {
            snippets: Seq::empty(),
            search_mirror: Seq::empty(),
            folders: Seq::empty(),
            workspaces: Seq::empty(),
            projects: Seq::empty(),
            repositories: Seq::empty(),
            todos: Seq::empty(),
            tags: Seq::empty(),
            relations: Seq::empty(),
        }
    }

    /// What holds of the store at all times: ids are unique within each table, the
    /// search mirror is in step with the snippets, no two repositories share a path,
    /// and the relations between todos and tags are unique and join rows that exist.
    pub open spec fn wf(self) -> bool {
        &&& distinct_keys::<SnippetRow>(self.snippets)
        &&& self.search_mirror == mirror_of_all(self.snippets)
        &&& distinct_keys::<Folder>(self.folders)
        &&& distinct_keys::<WorkspaceRow>(self.workspaces)
        &&& distinct_keys::<ProjectRow>(self.projects)
        &&& distinct_keys::<RepositoryRow>(self.repositories)
        &&& distinct_paths(self.repositories)
        &&& distinct_keys::<TodoRow>(self.todos)
        &&& distinct_keys::<TodoTag>(self.tags)
        &&& distinct_relations(self.relations)
        &&& relations_resolve(self.todos, self.tags, self.relations)
    }
}

/// The store. It holds its tables in memory; every operation leaves it well-formed.
pub struct Database {
    snippets: Vec<SnippetRow>,
    search_mirror: Vec<MirrorRow>,
    folders: Vec<Folder>,
    workspaces: Vec<WorkspaceRow>,
    projects: Vec<ProjectRow>,
    repositories: Vec<RepositoryRow>,
    todos: Vec<TodoRow>,
    tags: Vec<TodoTag>,
    relations: Vec<TagRelation>,
}

impl View for Database {
    type V = StoreModel;

    closed spec fn view(&self) -> StoreModel {
        StoreModel {
            snippets: rows_view(self.snippets@),
            search_mirror: rows_view(self.search_mirror@),
            folders: rows_view(self.folders@),
            workspaces: rows_view(self.workspaces@),
            projects: rows_view(self.projects@),
            repositories: rows_view(self.repositories@),
            todos: rows_view(self.todos@),
            tags: rows_view(self.tags@),
            relations: rows_view(self.relations@),
        }
    }
}

impl Database {
    /// The store is well-formed.
    pub open spec fn wf(&self) -> bool {
        self@.wf()
    }

    /// A store with no rows.
    pub fn new() -> (db: Database)
        ensures
            db@ == StoreModel::empty(),
            db.wf(),
    {
        let db = Database {
            snippets: Vec::new(),
            search_mirror: Vec::new(),
            folders: Vec::new(),
            workspaces: Vec::new(),
            projects: Vec::new(),
            repositories: Vec::new(),
            todos: Vec::new(),
            tags: Vec::new(),
            relations: Vec::new(),
        };
        proof {
            assert(db@.search_mirror =~= mirror_of_all(db@.snippets));
        }
        db
    }
}

} // verus!
