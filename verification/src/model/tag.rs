//! Tags for todos, coloured from a fixed palette.
use vstd::prelude::*;
use crate::table::{Record, Stored};

verus! {

/// A tag with the colours its palette key resolves to.
#[derive(Clone, Debug, PartialEq)]
pub struct TodoTag {
    pub id: String,
    pub name: String,
    /// The foreground colour.
    pub color: String,
    /// The background colour.
    pub bg_color: String,
    /// The palette key.
    pub color_id: String,
    /// Milliseconds since the epoch.
    pub created_at: i64,
}

/// The value of a [`TodoTag`].
pub ghost struct TodoTagView {
    pub id: Seq<char>,
    pub name: Seq<char>,
    pub color: Seq<char>,
    pub bg_color: Seq<char>,
    pub color_id: Seq<char>,
    pub created_at: i64,
}

impl View for TodoTag {
    type V = TodoTagView;

    open spec fn view(&self) -> TodoTagView {
        TodoTagView {
            id: self.id@,
            name: self.name@,
            color: self.color@,
            bg_color: self.bg_color@,
            color_id: self.color_id@,
            created_at: self.created_at,
        }
    }
}

impl Stored for TodoTag {
    fn dup(&self) -> (r: TodoTag) {
        TodoTag {
            id: self.id.clone(),
            name: self.name.clone(),
            color: self.color.clone(),
            bg_color: self.bg_color.clone(),
            color_id: self.color_id.clone(),
            created_at: self.created_at,
        }
    }
}

impl Record for TodoTag {
    open spec fn key_of(v: TodoTagView) -> Seq<char> {
        v.id
    }

    fn key(&self) -> (k: &String) {
        &self.id
    }
}

/// One row of the join between todos and tags.
#[derive(Clone, Debug, PartialEq)]
pub struct TagRelation {
    pub todo_id: String,
    pub tag_id: String,
}

/// The value of a [`TagRelation`].
pub ghost struct TagRelationView {
    pub todo_id: Seq<char>,
    pub tag_id: Seq<char>,
}

impl View for TagRelation {
    type V = TagRelationView;

    open spec fn view(&self) -> TagRelationView {
        TagRelationView {
            todo_id: self.todo_id@,
            tag_id: self.tag_id@,
        }
    }
}

impl Stored for TagRelation {
    fn dup(&self) -> (r: TagRelation) {
        TagRelation {
            todo_id: self.todo_id.clone(),
            tag_id: self.tag_id.clone(),
        }
    }
}

/// What is needed to create a tag.
#[derive(Clone, Debug, PartialEq)]
pub struct CreateTodoTagRequest {
    pub name: String,
    pub color_id: String,
}

/// The value of a [`CreateTodoTagRequest`].
pub ghost struct CreateTodoTagRequestView {
    pub name: Seq<char>,
    pub color_id: Seq<char>,
}

impl View for CreateTodoTagRequest {
    type V = CreateTodoTagRequestView;

    open spec fn view(&self) -> CreateTodoTagRequestView {
        CreateTodoTagRequestView {
            name: self.name@,
            color_id: self.color_id@,
        }
    }
}

/// A partial update of the tag `id`: a field that is `None` keeps its stored value.
#[derive(Clone, Debug, PartialEq)]
pub struct UpdateTodoTagRequest {
    pub id: String,
    pub name: Option<String>,
    pub color_id: Option<String>,
}

/// The value of a [`UpdateTodoTagRequest`].
pub ghost struct UpdateTodoTagRequestView {
    pub id: Seq<char>,
    pub name: Option<Seq<char>>,
    pub color_id: Option<Seq<char>>,
}

impl View for UpdateTodoTagRequest {
    type V = UpdateTodoTagRequestView;

    open spec fn view(&self) -> UpdateTodoTagRequestView {
        UpdateTodoTagRequestView {
            id: self.id@,
            name: self.name.deep_view(),
            color_id: self.color_id.deep_view(),
        }
    }
}

/// The two colours of a palette entry.
#[derive(Clone, Debug, PartialEq)]
pub struct TagColorInfo {
    pub color: String,
    pub bg_color: String,
}

/// The value of a [`TagColorInfo`].
pub ghost struct TagColorInfoView {
    pub color: Seq<char>,
    pub bg_color: Seq<char>,
}

impl View for TagColorInfo {
    type V = TagColorInfoView;

    open spec fn view(&self) -> TagColorInfoView {
        TagColorInfoView {
            color: self.color@,
            bg_color: self.bg_color@,
        }
    }
}

} // verus!
