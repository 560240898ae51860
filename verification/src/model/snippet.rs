//! Code snippets: the entity, its stored row, and the requests that act on it.
use vstd::prelude::*;
use crate::fields::copy_opt;
use crate::table::{Record, Stored};

verus! {

/// A code fragment with its language tag and metadata.
#[derive(Clone, Debug, PartialEq)]
pub struct CodeSnippet {
    pub id: String,
    pub title: String,
    pub description: String,
    pub code: String,
    pub language: String,
    /// Free-text tags, in the order given.
    pub tags: Vec<String>,
    pub folder_id: Option<String>,
    pub project_id: Option<String>,
    pub is_favorite: bool,
    pub usage_count: i64,
    /// Milliseconds since the epoch.
    pub created_at: i64,
    /// Milliseconds since the epoch.
    pub updated_at: i64,
}

/// The value of a [`CodeSnippet`].
pub ghost struct CodeSnippetView {
    pub id: Seq<char>,
    pub title: Seq<char>,
    pub description: Seq<char>,
    pub code: Seq<char>,
    pub language: Seq<char>,
    pub tags: Seq<Seq<char>>,
    pub folder_id: Option<Seq<char>>,
    pub project_id: Option<Seq<char>>,
    pub is_favorite: bool,
    pub usage_count: i64,
    pub created_at: i64,
    pub updated_at: i64,
}

impl View for CodeSnippet {
    type V = CodeSnippetView;

    open spec fn view(&self) -> CodeSnippetView {
        CodeSnippetView {
            id: self.id@,
            title: self.title@,
            description: self.description@,
            code: self.code@,
            language: self.language@,
            tags: self.tags.deep_view(),
            folder_id: self.folder_id.deep_view(),
            project_id: self.project_id.deep_view(),
            is_favorite: self.is_favorite,
            usage_count: self.usage_count,
            created_at: self.created_at,
            updated_at: self.updated_at,
        }
    }
}

/// A snippet as it is stored: the tag list is held as one encoded text.
#[derive(Clone, Debug, PartialEq)]
pub struct SnippetRow {
    pub id: String,
    pub title: String,
    pub description: String,
    pub code: String,
    pub language: String,
    /// The tag list, encoded as a JSON array of strings.
    pub tags: String,
    pub folder_id: Option<String>,
    pub project_id: Option<String>,
    pub is_favorite: bool,
    pub usage_count: i64,
    /// Milliseconds since the epoch.
    pub created_at: i64,
    /// Milliseconds since the epoch.
    pub updated_at: i64,
}

/// The value of a [`SnippetRow`].
pub ghost struct SnippetRowView {
    pub id: Seq<char>,
    pub title: Seq<char>,
    pub description: Seq<char>,
    pub code: Seq<char>,
    pub language: Seq<char>,
    pub tags: Seq<char>,
    pub folder_id: Option<Seq<char>>,
    pub project_id: Option<Seq<char>>,
    pub is_favorite: bool,
    pub usage_count: i64,
    pub created_at: i64,
    pub updated_at: i64,
}

impl View for SnippetRow {
    type V = SnippetRowView;

    open spec fn view(&self) -> SnippetRowView {
        SnippetRowView {
            id: self.id@,
            title: self.title@,
            description: self.description@,
            code: self.code@,
            language: self.language@,
            tags: self.tags@,
            folder_id: self.folder_id.deep_view(),
            project_id: self.project_id.deep_view(),
            is_favorite: self.is_favorite,
            usage_count: self.usage_count,
            created_at: self.created_at,
            updated_at: self.updated_at,
        }
    }
}

impl Stored for SnippetRow {
    fn dup(&self) -> (r: SnippetRow) {
        SnippetRow {
            id: self.id.clone(),
            title: self.title.clone(),
            description: self.description.clone(),
            code: self.code.clone(),
            language: self.language.clone(),
            tags: self.tags.clone(),
            folder_id: copy_opt(&self.folder_id),
            project_id: copy_opt(&self.project_id),
            is_favorite: self.is_favorite,
            usage_count: self.usage_count,
            created_at: self.created_at,
            updated_at: self.updated_at,
        }
    }
}

impl Record for SnippetRow {
    open spec fn key_of(v: SnippetRowView) -> Seq<char> {
        v.id
    }

    fn key(&self) -> (k: &String) {
        &self.id
    }
}

/// A row of the search mirror: the searchable columns of one snippet.
#[derive(Clone, Debug, PartialEq)]
pub struct MirrorRow {
    pub id: String,
    pub title: String,
    pub description: String,
    pub code: String,
    pub tags: String,
}

/// The value of a [`MirrorRow`].
pub ghost struct MirrorRowView {
    pub id: Seq<char>,
    pub title: Seq<char>,
    pub description: Seq<char>,
    pub code: Seq<char>,
    pub tags: Seq<char>,
}

impl View for MirrorRow {
    type V = MirrorRowView;

    open spec fn view(&self) -> MirrorRowView {
        MirrorRowView {
            id: self.id@,
            title: self.title@,
            description: self.description@,
            code: self.code@,
            tags: self.tags@,
        }
    }
}

impl Stored for MirrorRow {
    fn dup(&self) -> (r: MirrorRow) {
        MirrorRow {
            id: self.id.clone(),
            title: self.title.clone(),
            description: self.description.clone(),
            code: self.code.clone(),
            tags: self.tags.clone(),
        }
    }
}

/// What is needed to create a snippet.
#[derive(Clone, Debug, PartialEq)]
pub struct CreateSnippetRequest {
    pub title: String,
    pub description: String,
    pub code: String,
    pub language: String,
    pub tags: Vec<String>,
    pub folder_id: Option<String>,
    pub project_id: Option<String>,
}

/// The value of a [`CreateSnippetRequest`].
pub ghost struct CreateSnippetRequestView {
    pub title: Seq<char>,
    pub description: Seq<char>,
    pub code: Seq<char>,
    pub language: Seq<char>,
    pub tags: Seq<Seq<char>>,
    pub folder_id: Option<Seq<char>>,
    pub project_id: Option<Seq<char>>,
}

impl View for CreateSnippetRequest {
    type V = CreateSnippetRequestView;

    open spec fn view(&self) -> CreateSnippetRequestView {
        CreateSnippetRequestView {
            title: self.title@,
            description: self.description@,
            code: self.code@,
            language: self.language@,
            tags: self.tags.deep_view(),
            folder_id: self.folder_id.deep_view(),
            project_id: self.project_id.deep_view(),
        }
    }
}

/// A partial update of the snippet `id`: a field that is `None` keeps its stored value.
#[derive(Clone, Debug, PartialEq)]
pub struct UpdateSnippetRequest {
    pub id: String,
    pub title: Option<String>,
    pub description: Option<String>,
    pub code: Option<String>,
    pub language: Option<String>,
    pub tags: Option<Vec<String>>,
    pub folder_id: Option<String>,
    pub project_id: Option<String>,
    pub is_favorite: Option<bool>,
    pub usage_count: Option<i64>,
}

/// The value of a [`UpdateSnippetRequest`].
pub ghost struct UpdateSnippetRequestView {
    pub id: Seq<char>,
    pub title: Option<Seq<char>>,
    pub description: Option<Seq<char>>,
    pub code: Option<Seq<char>>,
    pub language: Option<Seq<char>>,
    pub tags: Option<Seq<Seq<char>>>,
    pub folder_id: Option<Seq<char>>,
    pub project_id: Option<Seq<char>>,
    pub is_favorite: Option<bool>,
    pub usage_count: Option<i64>,
}

impl View for UpdateSnippetRequest {
    type V = UpdateSnippetRequestView;

    open spec fn view(&self) -> UpdateSnippetRequestView {
        UpdateSnippetRequestView {
            id: self.id@,
            title: self.title.deep_view(),
            description: self.description.deep_view(),
            code: self.code.deep_view(),
            language: self.language.deep_view(),
            tags: self.tags.deep_view(),
            folder_id: self.folder_id.deep_view(),
            project_id: self.project_id.deep_view(),
            is_favorite: self.is_favorite,
            usage_count: self.usage_count,
        }
    }
}

/// A search over snippets. All the filters that are set have to hold.
#[derive(Clone, Debug, PartialEq)]
pub struct SearchQuery {
    /// A text that the title, the description or the code has to contain; empty for no filter.
    pub keyword: String,
    /// The exact language tag.
    pub language: Option<String>,
    /// Texts that the encoded tag list has to contain, each of them.
    pub tags: Option<Vec<String>>,
}

/// The value of a [`SearchQuery`].
pub ghost struct SearchQueryView {
    pub keyword: Seq<char>,
    pub language: Option<Seq<char>>,
    pub tags: Option<Seq<Seq<char>>>,
}

impl View for SearchQuery {
    type V = SearchQueryView;

    open spec fn view(&self) -> SearchQueryView {
        SearchQueryView {
            keyword: self.keyword@,
            language: self.language.deep_view(),
            tags: self.tags.deep_view(),
        }
    }
}

} // verus!
