//! Workspaces: the top-level containers, each with a free-form settings map.
use std::collections::HashMap;
use vstd::prelude::*;
use crate::fields::copy_opt;
use crate::table::{Record, Stored};

verus! {

/// A workspace with its settings.
#[derive(Clone, Debug, PartialEq)]
pub struct Workspace {
    pub id: String,
    pub name: String,
    pub description: Option<String>,
    pub color: String,
    pub is_default: bool,
    /// Free-form settings, by key.
    pub settings: HashMap<String, serde_json::Value>,
    /// An ISO-8601 timestamp.
    pub created_at: String,
    /// An ISO-8601 timestamp.
    pub updated_at: String,
}

/// The value of a [`Workspace`].
pub ghost struct WorkspaceView {
    pub id: Seq<char>,
    pub name: Seq<char>,
    pub description: Option<Seq<char>>,
    pub color: Seq<char>,
    pub is_default: bool,
    pub settings: Map<String, serde_json::Value>,
    pub created_at: Seq<char>,
    pub updated_at: Seq<char>,
}

impl View for Workspace {
    type V = WorkspaceView;

    open spec fn view(&self) -> WorkspaceView {
        WorkspaceView {
            id: self.id@,
            name: self.name@,
            description: self.description.deep_view(),
            color: self.color@,
            is_default: self.is_default,
            settings: self.settings@,
            created_at: self.created_at@,
            updated_at: self.updated_at@,
        }
    }
}

/// A workspace as it is stored: the settings are held as one encoded text.
#[derive(Clone, Debug, PartialEq)]
pub struct WorkspaceRow {
    pub id: String,
    pub name: String,
    pub description: Option<String>,
    pub color: String,
    pub is_default: bool,
    /// The settings, encoded as a JSON object.
    pub settings: String,
    /// An ISO-8601 timestamp.
    pub created_at: String,
    /// An ISO-8601 timestamp.
    pub updated_at: String,
}

/// The value of a [`WorkspaceRow`].
pub ghost struct WorkspaceRowView {
    pub id: Seq<char>,
    pub name: Seq<char>,
    pub description: Option<Seq<char>>,
    pub color: Seq<char>,
    pub is_default: bool,
    pub settings: Seq<char>,
    pub created_at: Seq<char>,
    pub updated_at: Seq<char>,
}

impl View for WorkspaceRow {
    type V = WorkspaceRowView;

    open spec fn view(&self) -> WorkspaceRowView {
        WorkspaceRowView {
            id: self.id@,
            name: self.name@,
            description: self.description.deep_view(),
            color: self.color@,
            is_default: self.is_default,
            settings: self.settings@,
            created_at: self.created_at@,
            updated_at: self.updated_at@,
        }
    }
}

impl Stored for WorkspaceRow {
    fn dup(&self) -> (r: WorkspaceRow) {
        WorkspaceRow {
            id: self.id.clone(),
            name: self.name.clone(),
            description: copy_opt(&self.description),
            color: self.color.clone(),
            is_default: self.is_default,
            settings: self.settings.clone(),
            created_at: self.created_at.clone(),
            updated_at: self.updated_at.clone(),
        }
    }
}

impl Record for WorkspaceRow {
    open spec fn key_of(v: WorkspaceRowView) -> Seq<char> {
        v.id
    }

    fn key(&self) -> (k: &String) {
        &self.id
    }
}

/// The fields a caller may send with an update of a workspace.
#[derive(Clone, Debug, PartialEq)]
pub struct WorkspaceUpdate {
    pub name: Option<String>,
    pub description: Option<String>,
    pub color: Option<String>,
    pub is_default: Option<bool>,
}

/// The value of a [`WorkspaceUpdate`].
pub ghost struct WorkspaceUpdateView {
    pub name: Option<Seq<char>>,
    pub description: Option<Seq<char>>,
    pub color: Option<Seq<char>>,
    pub is_default: Option<bool>,
}

impl View for WorkspaceUpdate {
    type V = WorkspaceUpdateView;

    open spec fn view(&self) -> WorkspaceUpdateView {
        WorkspaceUpdateView {
            name: self.name.deep_view(),
            description: self.description.deep_view(),
            color: self.color.deep_view(),
            is_default: self.is_default,
        }
    }
}

} // verus!
