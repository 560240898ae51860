//! Folders: a tree of grouping nodes for snippets.
use vstd::prelude::*;
use crate::fields::copy_opt;
use crate::table::{Record, Stored};

verus! {

/// A grouping node for snippets. Folders form a tree through `parent_id`.
#[derive(Clone, Debug, PartialEq)]
pub struct Folder {
    pub id: String,
    pub name: String,
    pub parent_id: Option<String>,
    /// Milliseconds since the epoch.
    pub created_at: i64,
}

/// The value of a [`Folder`].
pub ghost struct FolderView {
    pub id: Seq<char>,
    pub name: Seq<char>,
    pub parent_id: Option<Seq<char>>,
    pub created_at: i64,
}

impl View for Folder {
    type V = FolderView;

    open spec fn view(&self) -> FolderView {
        FolderView {
            id: self.id@,
            name: self.name@,
            parent_id: self.parent_id.deep_view(),
            created_at: self.created_at,
        }
    }
}

impl Stored for Folder {
    fn dup(&self) -> (r: Folder) {
        Folder {
            id: self.id.clone(),
            name: self.name.clone(),
            parent_id: copy_opt(&self.parent_id),
            created_at: self.created_at,
        }
    }
}

impl Record for Folder {
    open spec fn key_of(v: FolderView) -> Seq<char> {
        v.id
    }

    fn key(&self) -> (k: &String) {
        &self.id
    }
}

} // verus!
