use snippets_hub::database::snapshot::Snapshot;
use snippets_hub::database::Database;
use snippets_hub::error::StoreError;
use snippets_hub::model::folder::Folder;
use snippets_hub::model::repository::RepositoryRow;
use snippets_hub::model::snippet::{CreateSnippetRequest, SearchQuery, SnippetRow};
use snippets_hub::model::tag::{CreateTodoTagRequest, TagRelation, TodoTag};
use snippets_hub::model::todo::{CreateTodoRequest, TodoRow};

fn empty() -> Snapshot {
    Snapshot {
        snippets: Vec::new(),
        folders: Vec::new(),
        workspaces: Vec::new(),
        projects: Vec::new(),
        repositories: Vec::new(),
        todos: Vec::new(),
        tags: Vec::new(),
        relations: Vec::new(),
    }
}

fn snippet_row(id: &str, tags: &str) -> SnippetRow {
    SnippetRow {
        id: id.to_string(),
        title: "t".to_string(),
        description: "d".to_string(),
        code: "c".to_string(),
        language: "go".to_string(),
        tags: tags.to_string(),
        folder_id: None,
        project_id: None,
        is_favorite: true,
        usage_count: 3,
        created_at: 1,
        updated_at: 2,
    }
}

fn todo_row(id: &str, dependencies: &str) -> TodoRow {
    TodoRow {
        id: id.to_string(),
        title: "t".to_string(),
        description: None,
        status: "todo".to_string(),
        priority: None,
        due_date: None,
        estimated_hours: None,
        actual_hours: None,
        progress: 10,
        assignee: None,
        project_id: None,
        parent_id: None,
        recurring_config: None,
        dependencies: dependencies.to_string(),
        completed: false,
        archived: false,
        created_by: None,
        updated_by: None,
        created_at: 1,
        updated_at: 1,
        archived_at: None,
    }
}

fn tag_row(id: &str) -> TodoTag {
    TodoTag {
        id: id.to_string(),
        name: id.to_string(),
        color: "#ef4444".to_string(),
        bg_color: "#fef2f2".to_string(),
        color_id: "red".to_string(),
        created_at: 1,
    }
}

fn repository_row(id: &str, path: &str, remotes: &str) -> RepositoryRow {
    RepositoryRow {
        id: id.to_string(),
        name: "n".to_string(),
        description: None,
        path: path.to_string(),
        is_default: false,
        remotes: remotes.to_string(),
        created_at: "a".to_string(),
        updated_at: "a".to_string(),
    }
}

#[test]
fn snapshot_holds_the_rows_as_stored() {
    let mut db = Database::new();
    let req = CreateSnippetRequest {
        title: "t".to_string(),
        description: "d".to_string(),
        code: "c".to_string(),
        language: "go".to_string(),
        tags: vec!["a".to_string(), "b".to_string()],
        folder_id: None,
        project_id: None,
    };
    db.insert_snippet("s1".to_string(), 5, req).unwrap();
    db.insert_todo_tag("x".to_string(), 1, CreateTodoTagRequest { name: "x".to_string(), color_id: "red".to_string() }).unwrap();
    let todo = CreateTodoRequest {
        title: "t".to_string(),
        description: None,
        status: None,
        priority: None,
        due_date: None,
        estimated_hours: None,
        assignee: None,
        project_id: None,
        parent_id: None,
        recurring_config: None,
        dependencies: Some(vec!["d1".to_string()]),
        tags: Some(vec!["x".to_string()]),
    };
    db.insert_todo("t1".to_string(), 6, todo).unwrap();
    let s = db.snapshot();
    assert_eq!(s.snippets.len(), 1);
    assert_eq!(s.snippets[0].tags, "[\"a\",\"b\"]");
    assert_eq!(s.todos[0].dependencies, "[\"d1\"]");
    assert_eq!(s.todos[0].status, "todo");
    assert_eq!(s.relations.len(), 1);
    assert_eq!(s.relations[0].todo_id, "t1");
    assert_eq!(s.relations[0].tag_id, "x");
    let back = Database::restore(s).unwrap();
    assert_eq!(back.get_snippet("s1").unwrap().unwrap().tags, vec!["a", "b"]);
    assert_eq!(back.get_todo("t1").unwrap().dependencies, vec!["d1"]);
    assert_eq!(back.get_todo("t1").unwrap().tags, vec!["x"]);
}

#[test]
fn todo_without_lists_has_empty_lists() {
    let mut db = Database::new();
    let todo = CreateTodoRequest {
        title: "t".to_string(),
        description: None,
        status: None,
        priority: None,
        due_date: None,
        estimated_hours: None,
        assignee: None,
        project_id: None,
        parent_id: None,
        recurring_config: None,
        dependencies: None,
        tags: None,
    };
    let t = db.insert_todo("t1".to_string(), 6, todo).unwrap();
    assert!(t.dependencies.is_empty());
    assert!(t.tags.is_empty());
    assert_eq!(db.snapshot().todos[0].dependencies, "[]");
}

#[test]
fn unreadable_lists_are_read_as_empty() {
    let mut s = empty();
    s.snippets.push(snippet_row("s1", "not a list"));
    s.snippets.push(snippet_row("s2", "[\"ok\", \"fine\"]"));
    s.snippets.push(snippet_row("s3", "{\"a\":1}"));
    s.snippets.push(snippet_row("s4", "[1,2]"));
    s.todos.push(todo_row("t1", ""));
    s.todos.push(todo_row("t2", "[\"a\"]"));
    s.repositories.push(repository_row("r1", "/a", "oops"));
    s.repositories.push(repository_row("r2", "/b", "[[\"origin\",\"u\"]]"));
    s.repositories.push(repository_row("r3", "/c", "[{\"name\":\"origin\",\"url\":\"u\"}]"));
    s.repositories.push(repository_row("r4", "/d", "[{\"name\":\"origin\",\"url\":\"u\"},{\"name\":\"fork\"}]"));
    s.repositories.push(repository_row("r5", "/e", "[{\"url\":\"u\",\"kind\":\"ssh\",\"name\":\"origin\"}]"));
    s.repositories.push(repository_row("r6", "/f", "[{\"name\":\"origin\",\"url\":7}]"));
    let db = Database::restore(s).unwrap();
    assert!(db.get_snippet("s1").unwrap().unwrap().tags.is_empty());
    assert_eq!(db.get_snippet("s2").unwrap().unwrap().tags, vec!["ok", "fine"]);
    assert!(db.get_snippet("s3").unwrap().unwrap().tags.is_empty());
    assert!(db.get_snippet("s4").unwrap().unwrap().tags.is_empty());
    let kept = db.get_snippet("s1").unwrap().unwrap();
    assert!(kept.is_favorite);
    assert_eq!(kept.usage_count, 3);
    assert!(db.get_todo("t1").unwrap().dependencies.is_empty());
    assert_eq!(db.get_todo("t2").unwrap().dependencies, vec!["a"]);
    assert_eq!(db.get_todo("t2").unwrap().progress, 10);
    assert!(db.get_git_repository("r1").unwrap().remotes.is_empty());
    assert!(db.get_git_repository("r2").unwrap().remotes.is_empty());
    let read = db.get_git_repository("r3").unwrap().remotes;
    assert_eq!(read.len(), 1);
    assert_eq!(read[0].name, "origin");
    assert_eq!(read[0].url, "u");
    assert!(db.get_git_repository("r4").unwrap().remotes.is_empty());
    let extra = db.get_git_repository("r5").unwrap().remotes;
    assert_eq!(extra.len(), 1);
    assert_eq!(extra[0].name, "origin");
    assert_eq!(extra[0].url, "u");
    assert!(db.get_git_repository("r6").unwrap().remotes.is_empty());
    let by_text = SearchQuery { keyword: String::new(), language: None, tags: Some(vec!["not a".to_string()]) };
    assert_eq!(db.search_snippets(by_text).unwrap().len(), 1);
}

#[test]
fn rows_that_clash_are_refused() {
    let mut s = empty();
    s.snippets.push(snippet_row("s1", "[]"));
    s.snippets.push(snippet_row("s1", "[]"));
    assert_eq!(Database::restore(s).err(), Some(StoreError::DuplicateKey));

    let mut s = empty();
    s.folders.push(Folder { id: "f".to_string(), name: "a".to_string(), parent_id: None, created_at: 1 });
    s.folders.push(Folder { id: "g".to_string(), name: "a".to_string(), parent_id: None, created_at: 1 });
    s.folders.push(Folder { id: "f".to_string(), name: "b".to_string(), parent_id: None, created_at: 2 });
    assert_eq!(Database::restore(s).err(), Some(StoreError::DuplicateKey));

    let mut s = empty();
    s.repositories.push(repository_row("r1", "/a", "[]"));
    s.repositories.push(repository_row("r2", "/a", "[]"));
    assert_eq!(Database::restore(s).err(), Some(StoreError::DuplicateKey));

    let mut s = empty();
    s.todos.push(todo_row("t1", "[]"));
    s.tags.push(tag_row("x"));
    s.relations.push(TagRelation { todo_id: "t1".to_string(), tag_id: "x".to_string() });
    s.relations.push(TagRelation { todo_id: "t1".to_string(), tag_id: "x".to_string() });
    assert_eq!(Database::restore(s).err(), Some(StoreError::DuplicateKey));
}

#[test]
fn relations_that_dangle_are_refused() {
    let mut s = empty();
    s.todos.push(todo_row("t1", "[]"));
    s.tags.push(tag_row("x"));
    s.relations.push(TagRelation { todo_id: "t1".to_string(), tag_id: "y".to_string() });
    assert_eq!(Database::restore(s).err(), Some(StoreError::MissingReference));

    let mut s = empty();
    s.todos.push(todo_row("t1", "[]"));
    s.tags.push(tag_row("x"));
    s.relations.push(TagRelation { todo_id: "t2".to_string(), tag_id: "x".to_string() });
    assert_eq!(Database::restore(s).err(), Some(StoreError::MissingReference));

    let mut s = empty();
    s.todos.push(todo_row("t1", "[]"));
    s.tags.push(tag_row("x"));
    s.relations.push(TagRelation { todo_id: "t1".to_string(), tag_id: "x".to_string() });
    let db = Database::restore(s).unwrap();
    assert_eq!(db.get_todo("t1").unwrap().tags, vec!["x"]);
}

#[test]
fn dangling_relations_can_be_dropped_before_restoring() {
    let mut s = empty();
    s.todos.push(todo_row("t1", "[]"));
    s.tags.push(tag_row("x"));
    s.relations.push(TagRelation { todo_id: "t9".to_string(), tag_id: "x".to_string() });
    s.relations.push(TagRelation { todo_id: "t1".to_string(), tag_id: "x".to_string() });
    s.relations.push(TagRelation { todo_id: "t1".to_string(), tag_id: "y".to_string() });
    let kept = s.without_dangling();
    assert_eq!(kept.relations.len(), 1);
    assert_eq!(kept.relations[0].todo_id, "t1");
    assert_eq!(kept.relations[0].tag_id, "x");
    assert_eq!(kept.todos.len(), 1);
    let db = Database::restore(kept).unwrap();
    assert_eq!(db.get_todo("t1").unwrap().tags, vec!["x"]);
}

#[test]
fn error_messages_name_their_subject() {
    assert_eq!(StoreError::UnknownColor.message_for("mauve"), "unknown color id: mauve");
    assert_eq!(StoreError::NotFound.message_for("todo t1"), "not found: todo t1");
    assert_eq!(StoreError::UnknownOperation.message_for(""), "unknown batch operation: ");
}
