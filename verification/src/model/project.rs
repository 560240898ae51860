//! Projects: containers inside a workspace, with tags, settings and metadata.
use std::collections::HashMap;
use vstd::prelude::*;
use crate::fields::copy_opt;
use crate::table::{Record, Stored};

verus! {

/// A project with its tag list and its two free-form maps.
#[derive(Clone, Debug, PartialEq)]
pub struct Project {
    pub id: String,
    pub workspace_id: String,
    pub name: String,
    pub description: Option<String>,
    pub project_type: String,
    pub template: Option<String>,
    pub parent_id: Option<String>,
    pub path: Option<String>,
    pub color: String,
    pub icon: String,
    pub tags: Vec<String>,
    pub settings: HashMap<String, serde_json::Value>,
    pub metadata: HashMap<String, serde_json::Value>,
    pub is_folder: bool,
    /// An ISO-8601 timestamp.
    pub created_at: String,
    /// An ISO-8601 timestamp.
    pub updated_at: String,
}

/// The value of a [`Project`].
pub ghost struct ProjectView {
    pub id: Seq<char>,
    pub workspace_id: Seq<char>,
    pub name: Seq<char>,
    pub description: Option<Seq<char>>,
    pub project_type: Seq<char>,
    pub template: Option<Seq<char>>,
    pub parent_id: Option<Seq<char>>,
    pub path: Option<Seq<char>>,
    pub color: Seq<char>,
    pub icon: Seq<char>,
    pub tags: Seq<Seq<char>>,
    pub settings: Map<String, serde_json::Value>,
    pub metadata: Map<String, serde_json::Value>,
    pub is_folder: bool,
    pub created_at: Seq<char>,
    pub updated_at: Seq<char>,
}

impl View for Project {
    type V = ProjectView;

    open spec fn view(&self) -> ProjectView {
        ProjectView {
            id: self.id@,
            workspace_id: self.workspace_id@,
            name: self.name@,
            description: self.description.deep_view(),
            project_type: self.project_type@,
            template: self.template.deep_view(),
            parent_id: self.parent_id.deep_view(),
            path: self.path.deep_view(),
            color: self.color@,
            icon: self.icon@,
            tags: self.tags.deep_view(),
            settings: self.settings@,
            metadata: self.metadata@,
            is_folder: self.is_folder,
            created_at: self.created_at@,
            updated_at: self.updated_at@,
        }
    }
}

/// A project as it is stored: tags, settings and metadata are held as encoded texts.
#[derive(Clone, Debug, PartialEq)]
pub struct ProjectRow {
    pub id: String,
    pub workspace_id: String,
    pub name: String,
    pub description: Option<String>,
    pub project_type: String,
    pub template: Option<String>,
    pub parent_id: Option<String>,
    pub path: Option<String>,
    pub color: String,
    pub icon: String,
    /// The tag list, encoded as a JSON array of strings.
    pub tags: String,
    /// The settings, encoded as a JSON object.
    pub settings: String,
    /// The metadata, encoded as a JSON object.
    pub metadata: String,
    pub is_folder: bool,
    /// An ISO-8601 timestamp.
    pub created_at: String,
    /// An ISO-8601 timestamp.
    pub updated_at: String,
}

/// The value of a [`ProjectRow`].
pub ghost struct ProjectRowView {
    pub id: Seq<char>,
    pub workspace_id: Seq<char>,
    pub name: Seq<char>,
    pub description: Option<Seq<char>>,
    pub project_type: Seq<char>,
    pub template: Option<Seq<char>>,
    pub parent_id: Option<Seq<char>>,
    pub path: Option<Seq<char>>,
    pub color: Seq<char>,
    pub icon: Seq<char>,
    pub tags: Seq<char>,
    pub settings: Seq<char>,
    pub metadata: Seq<char>,
    pub is_folder: bool,
    pub created_at: Seq<char>,
    pub updated_at: Seq<char>,
}

impl View for ProjectRow {
    type V = ProjectRowView;

    open spec fn view(&self) -> ProjectRowView {
        ProjectRowView {
            id: self.id@,
            workspace_id: self.workspace_id@,
            name: self.name@,
            description: self.description.deep_view(),
            project_type: self.project_type@,
            template: self.template.deep_view(),
            parent_id: self.parent_id.deep_view(),
            path: self.path.deep_view(),
            color: self.color@,
            icon: self.icon@,
            tags: self.tags@,
            settings: self.settings@,
            metadata: self.metadata@,
            is_folder: self.is_folder,
            created_at: self.created_at@,
            updated_at: self.updated_at@,
        }
    }
}

impl Stored for ProjectRow {
    fn dup(&self) -> (r: ProjectRow) {
        ProjectRow {
            id: self.id.clone(),
            workspace_id: self.workspace_id.clone(),
            name: self.name.clone(),
            description: copy_opt(&self.description),
            project_type: self.project_type.clone(),
            template: copy_opt(&self.template),
            parent_id: copy_opt(&self.parent_id),
            path: copy_opt(&self.path),
            color: self.color.clone(),
            icon: self.icon.clone(),
            tags: self.tags.clone(),
            settings: self.settings.clone(),
            metadata: self.metadata.clone(),
            is_folder: self.is_folder,
            created_at: self.created_at.clone(),
            updated_at: self.updated_at.clone(),
        }
    }
}

impl Record for ProjectRow {
    open spec fn key_of(v: ProjectRowView) -> Seq<char> {
        v.id
    }

    fn key(&self) -> (k: &String) {
        &self.id
    }
}

/// The fields a caller may send with an update of a project.
#[derive(Clone, Debug, PartialEq)]
pub struct ProjectUpdate {
    pub name: Option<String>,
    pub description: Option<String>,
    pub color: Option<String>,
    pub icon: Option<String>,
}

/// The value of a [`ProjectUpdate`].
pub ghost struct ProjectUpdateView {
    pub name: Option<Seq<char>>,
    pub description: Option<Seq<char>>,
    pub color: Option<Seq<char>>,
    pub icon: Option<Seq<char>>,
}

impl View for ProjectUpdate {
    type V = ProjectUpdateView;

    open spec fn view(&self) -> ProjectUpdateView {
        ProjectUpdateView {
            name: self.name.deep_view(),
            description: self.description.deep_view(),
            color: self.color.deep_view(),
            icon: self.icon.deep_view(),
        }
    }
}

} // verus!
