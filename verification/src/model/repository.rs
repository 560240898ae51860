//! References to git repositories on disk, with their named remotes.
use vstd::prelude::*;
use crate::fields::copy_opt;
use crate::table::{Record, rows_view, Stored};

verus! {

/// A named remote of a repository.
#[derive(Clone, Debug, PartialEq)]
pub struct GitRemote {
    pub name: String,
    pub url: String,
}

/// The value of a [`GitRemote`].
pub ghost struct GitRemoteView {
    pub name: Seq<char>,
    pub url: Seq<char>,
}

impl View for GitRemote {
    type V = GitRemoteView;

    open spec fn view(&self) -> GitRemoteView {
        GitRemoteView {
            name: self.name@,
            url: self.url@,
        }
    }
}

impl Stored for GitRemote {
    fn dup(&self) -> (r: GitRemote) {
        GitRemote {
            name: self.name.clone(),
            url: self.url.clone(),
        }
    }
}

/// A reference to a git repository.
#[derive(Clone, Debug, PartialEq)]
pub struct GitRepository {
    pub id: String,
    pub name: String,
    pub description: Option<String>,
    /// The path of the working copy. No two repositories share a path.
    pub path: String,
    pub is_default: bool,
    pub remotes: Vec<GitRemote>,
    /// An ISO-8601 timestamp.
    pub created_at: String,
    /// An ISO-8601 timestamp.
    pub updated_at: String,
}

/// The value of a [`GitRepository`].
pub ghost struct GitRepositoryView {
    pub id: Seq<char>,
    pub name: Seq<char>,
    pub description: Option<Seq<char>>,
    pub path: Seq<char>,
    pub is_default: bool,
    pub remotes: Seq<GitRemoteView>,
    pub created_at: Seq<char>,
    pub updated_at: Seq<char>,
}

impl View for GitRepository {
    type V = GitRepositoryView;

    open spec fn view(&self) -> GitRepositoryView {
        GitRepositoryView {
            id: self.id@,
            name: self.name@,
            description: self.description.deep_view(),
            path: self.path@,
            is_default: self.is_default,
            remotes: rows_view(self.remotes@),
            created_at: self.created_at@,
            updated_at: self.updated_at@,
        }
    }
}

/// A repository as it is stored: the remotes are held as one encoded text.
#[derive(Clone, Debug, PartialEq)]
pub struct RepositoryRow {
    pub id: String,
    pub name: String,
    pub description: Option<String>,
    /// The path of the working copy. No two repositories share a path.
    pub path: String,
    pub is_default: bool,
    /// The remotes, encoded as a JSON array of objects with a name and a URL.
    pub remotes: String,
    /// An ISO-8601 timestamp.
    pub created_at: String,
    /// An ISO-8601 timestamp.
    pub updated_at: String,
}

/// The value of a [`RepositoryRow`].
pub ghost struct RepositoryRowView {
    pub id: Seq<char>,
    pub name: Seq<char>,
    pub description: Option<Seq<char>>,
    pub path: Seq<char>,
    pub is_default: bool,
    pub remotes: Seq<char>,
    pub created_at: Seq<char>,
    pub updated_at: Seq<char>,
}

impl View for RepositoryRow {
    type V = RepositoryRowView;

    open spec fn view(&self) -> RepositoryRowView {
        RepositoryRowView {
            id: self.id@,
            name: self.name@,
            description: self.description.deep_view(),
            path: self.path@,
            is_default: self.is_default,
            remotes: self.remotes@,
            created_at: self.created_at@,
            updated_at: self.updated_at@,
        }
    }
}

impl Stored for RepositoryRow {
    fn dup(&self) -> (r: RepositoryRow) {
        RepositoryRow {
            id: self.id.clone(),
            name: self.name.clone(),
            description: copy_opt(&self.description),
            path: self.path.clone(),
            is_default: self.is_default,
            remotes: self.remotes.clone(),
            created_at: self.created_at.clone(),
            updated_at: self.updated_at.clone(),
        }
    }
}

impl Record for RepositoryRow {
    open spec fn key_of(v: RepositoryRowView) -> Seq<char> {
        v.id
    }

    fn key(&self) -> (k: &String) {
        &self.id
    }
}

/// The fields a caller may send with an update of a repository.
#[derive(Clone, Debug, PartialEq)]
pub struct GitRepositoryUpdate {
    pub name: Option<String>,
    pub description: Option<String>,
    pub is_default: Option<bool>,
}

/// The value of a [`GitRepositoryUpdate`].
pub ghost struct GitRepositoryUpdateView {
    pub name: Option<Seq<char>>,
    pub description: Option<Seq<char>>,
    pub is_default: Option<bool>,
}

impl View for GitRepositoryUpdate {
    type V = GitRepositoryUpdateView;

    open spec fn view(&self) -> GitRepositoryUpdateView {
        GitRepositoryUpdateView {
            name: self.name.deep_view(),
            description: self.description.deep_view(),
            is_default: self.is_default,
        }
    }
}

} // verus!
