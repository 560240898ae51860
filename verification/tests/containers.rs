use std::collections::HashMap;

use snippets_hub::database::snapshot::Snapshot;
use snippets_hub::database::Database;
use snippets_hub::error::{ErrorKind, StoreError};
use snippets_hub::model::project::{Project, ProjectUpdate};
use snippets_hub::model::repository::{GitRemote, GitRepository, GitRepositoryUpdate};
use snippets_hub::model::workspace::{Workspace, WorkspaceRow, WorkspaceUpdate};

fn workspace(id: &str, created_at: &str) -> Workspace {
    Workspace {
        id: id.to_string(),
        name: format!("ws {}", id),
        description: Some("d".to_string()),
        color: "#fff".to_string(),
        is_default: id == "w1",
        settings: HashMap::new(),
        created_at: created_at.to_string(),
        updated_at: created_at.to_string(),
    }
}

fn project(id: &str, created_at: &str) -> Project {
    Project {
        id: id.to_string(),
        workspace_id: "w1".to_string(),
        name: format!("project {}", id),
        description: None,
        project_type: "rust".to_string(),
        template: Some("cli".to_string()),
        parent_id: None,
        path: Some(format!("/tmp/{}", id)),
        color: "#000".to_string(),
        icon: "box".to_string(),
        tags: vec!["a".to_string(), "b \"c\"".to_string()],
        settings: HashMap::new(),
        metadata: HashMap::new(),
        is_folder: false,
        created_at: created_at.to_string(),
        updated_at: created_at.to_string(),
    }
}

fn repository(id: &str, path: &str, created_at: &str) -> GitRepository {
    GitRepository {
        id: id.to_string(),
        name: format!("repo {}", id),
        description: None,
        path: path.to_string(),
        is_default: false,
        remotes: vec![
            GitRemote { name: "origin".to_string(), url: "git@host:a/b.git".to_string() },
            GitRemote { name: "up\"stream".to_string(), url: "https://host/a/b".to_string() },
        ],
        created_at: created_at.to_string(),
        updated_at: created_at.to_string(),
    }
}

fn no_workspace_update() -> WorkspaceUpdate {
    WorkspaceUpdate { name: Some("ignored".to_string()), description: None, color: None, is_default: None }
}

fn empty_snapshot() -> Snapshot {
    Snapshot {
        snippets: Vec::new(),
        folders: Vec::new(),
        workspaces: Vec::new(),
        projects: Vec::new(),
        repositories: Vec::new(),
        todos: Vec::new(),
        tags: Vec::new(),
        relations: Vec::new(),
    }
}

#[test]
fn workspace_is_stored_as_handed_in() {
    let mut db = Database::new();
    let mut ws = workspace("w1", "2024-01-01T00:00:00+00:00");
    ws.settings.insert("theme".to_string(), serde_json::Value::from("dark"));
    let back = db.create_workspace(ws).unwrap();
    assert_eq!(back.id, "w1");
    assert_eq!(back.settings.get("theme"), Some(&serde_json::Value::from("dark")));
    let read = db.get_workspace("w1").unwrap();
    assert_eq!(read.name, "ws w1");
    assert_eq!(read.description, Some("d".to_string()));
    assert_eq!(read.color, "#fff");
    assert!(read.is_default);
    assert_eq!(read.created_at, "2024-01-01T00:00:00+00:00");
    assert_eq!(read.updated_at, "2024-01-01T00:00:00+00:00");
    assert_eq!(read.settings.len(), 1);
    assert_eq!(read.settings.get("theme"), Some(&serde_json::Value::from("dark")));
    assert_eq!(db.snapshot().workspaces[0].settings, "{\"theme\":\"dark\"}");
}

#[test]
fn workspace_settings_keep_their_structure() {
    let mut db = Database::new();
    let mut ws = workspace("w1", "2024-01-01T00:00:00+00:00");
    ws.settings.insert("size".to_string(), serde_json::Value::from(12));
    ws.settings.insert("wrap".to_string(), serde_json::Value::from(true));
    ws.settings.insert(
        "rulers".to_string(),
        serde_json::Value::from(vec![serde_json::Value::from(80), serde_json::Value::from(100)]),
    );
    db.create_workspace(ws).unwrap();
    let read = db.get_workspace("w1").unwrap();
    assert_eq!(read.settings.len(), 3);
    assert_eq!(read.settings["size"], serde_json::Value::from(12));
    assert_eq!(read.settings["wrap"], serde_json::Value::from(true));
    assert_eq!(read.settings["rulers"][1], serde_json::Value::from(100));
}

#[test]
fn unreadable_settings_are_read_as_empty() {
    let mut snapshot = empty_snapshot();
    snapshot.workspaces.push(WorkspaceRow {
        id: "w1".to_string(),
        name: "n".to_string(),
        description: None,
        color: "c".to_string(),
        is_default: false,
        settings: "{not json".to_string(),
        created_at: "a".to_string(),
        updated_at: "b".to_string(),
    });
    let db = Database::restore(snapshot).unwrap();
    let read = db.get_workspace("w1").unwrap();
    assert!(read.settings.is_empty());
    assert_eq!(read.name, "n");
    assert_eq!(db.get_workspaces().unwrap()[0].settings.len(), 0);
}

#[test]
fn workspaces_are_listed_most_recently_created_first() {
    let mut db = Database::new();
    db.create_workspace(workspace("w1", "2024-01-02T00:00:00+00:00")).unwrap();
    db.create_workspace(workspace("w2", "2024-03-01T00:00:00+00:00")).unwrap();
    db.create_workspace(workspace("w3", "2023-12-31T23:59:59+00:00")).unwrap();
    db.create_workspace(workspace("w4", "2024-03-01T00:00:00+00:00")).unwrap();
    let listed: Vec<String> = db.get_workspaces().unwrap().into_iter().map(|w| w.id).collect();
    assert_eq!(listed, vec!["w2", "w4", "w1", "w3"]);
}

#[test]
fn workspace_errors() {
    let mut db = Database::new();
    db.create_workspace(workspace("w1", "a")).unwrap();
    assert_eq!(db.create_workspace(workspace("w1", "b")).unwrap_err(), StoreError::DuplicateKey);
    assert_eq!(db.get_workspace("nope").unwrap_err(), StoreError::NotFound);
    assert_eq!(db.update_workspace("nope".to_string(), no_workspace_update()).unwrap_err(), StoreError::NotFound);
    assert_eq!(db.get_workspaces().unwrap().len(), 1);
}

#[test]
fn updating_a_workspace_only_refreshes_its_timestamp() {
    let mut db = Database::new();
    db.create_workspace(workspace("w1", "2024-01-01T00:00:00+00:00")).unwrap();
    let touched = db
        .touch_workspace("w1".to_string(), no_workspace_update(), "2024-02-02T00:00:00+00:00".to_string())
        .unwrap();
    assert_eq!(touched.updated_at, "2024-02-02T00:00:00+00:00");
    assert_eq!(touched.created_at, "2024-01-01T00:00:00+00:00");
    assert_eq!(touched.name, "ws w1");
    let now = db.update_workspace("w1".to_string(), no_workspace_update()).unwrap();
    assert_eq!(now.name, "ws w1");
    assert_ne!(now.updated_at, "2024-02-02T00:00:00+00:00");
    let parsed = chrono::DateTime::parse_from_rfc3339(&now.updated_at).unwrap();
    assert!(parsed.timestamp() > 1_600_000_000);
    assert_eq!(db.get_workspace("w1").unwrap().updated_at, now.updated_at);
}

#[test]
fn deleting_a_workspace() {
    let mut db = Database::new();
    db.create_workspace(workspace("w1", "a")).unwrap();
    db.create_workspace(workspace("w2", "b")).unwrap();
    db.delete_workspace("w1".to_string()).unwrap();
    db.delete_workspace("w1".to_string()).unwrap();
    assert_eq!(db.get_workspace("w1").unwrap_err(), StoreError::NotFound);
    assert_eq!(db.get_workspaces().unwrap().len(), 1);
}

#[test]
fn project_is_stored_as_handed_in() {
    let mut db = Database::new();
    let mut p = project("p1", "2024-01-01T00:00:00+00:00");
    p.settings.insert("k".to_string(), serde_json::Value::from(1));
    p.metadata.insert("m".to_string(), serde_json::Value::Null);
    let back = db.create_project(p).unwrap();
    assert_eq!(back.tags, vec!["a", "b \"c\""]);
    let read = db.get_project("p1").unwrap();
    assert_eq!(read.workspace_id, "w1");
    assert_eq!(read.name, "project p1");
    assert_eq!(read.project_type, "rust");
    assert_eq!(read.template, Some("cli".to_string()));
    assert_eq!(read.path, Some("/tmp/p1".to_string()));
    assert_eq!(read.icon, "box");
    assert_eq!(read.tags, vec!["a", "b \"c\""]);
    assert_eq!(read.settings["k"], serde_json::Value::from(1));
    assert_eq!(read.metadata["m"], serde_json::Value::Null);
    assert!(!read.is_folder);
    let stored = db.snapshot();
    assert_eq!(stored.projects[0].tags, "[\"a\",\"b \\\"c\\\"\"]");
    assert_eq!(stored.projects[0].settings, "{\"k\":1}");
    assert_eq!(stored.projects[0].metadata, "{\"m\":null}");
}

#[test]
fn projects_are_listed_and_touched_and_deleted() {
    let mut db = Database::new();
    db.create_project(project("p1", "2024-01-01")).unwrap();
    db.create_project(project("p2", "2024-01-03")).unwrap();
    db.create_project(project("p3", "2024-01-02")).unwrap();
    assert_eq!(db.create_project(project("p2", "x")).unwrap_err(), StoreError::DuplicateKey);
    let listed: Vec<String> = db.get_projects().unwrap().into_iter().map(|p| p.id).collect();
    assert_eq!(listed, vec!["p2", "p3", "p1"]);
    let updates = ProjectUpdate { name: Some("ignored".to_string()), description: None, color: None, icon: None };
    let touched = db.touch_project("p1".to_string(), updates, "2025-05-05".to_string()).unwrap();
    assert_eq!(touched.updated_at, "2025-05-05");
    assert_eq!(touched.name, "project p1");
    assert_eq!(touched.tags, vec!["a", "b \"c\""]);
    let updates = ProjectUpdate { name: None, description: None, color: None, icon: None };
    let now = db.update_project("p1".to_string(), updates).unwrap();
    assert!(chrono::DateTime::parse_from_rfc3339(&now.updated_at).is_ok());
    let updates = ProjectUpdate { name: None, description: None, color: None, icon: None };
    assert_eq!(db.update_project("nope".to_string(), updates).unwrap_err(), StoreError::NotFound);
    db.delete_project("p2".to_string()).unwrap();
    assert_eq!(db.get_project("p2").unwrap_err(), StoreError::NotFound);
    assert_eq!(db.get_projects().unwrap().len(), 2);
}

#[test]
fn repository_is_stored_as_handed_in() {
    let mut db = Database::new();
    let back = db.create_git_repository(repository("r1", "/src/a", "2024-01-01")).unwrap();
    assert_eq!(back.remotes.len(), 2);
    let read = db.get_git_repository("r1").unwrap();
    assert_eq!(read.name, "repo r1");
    assert_eq!(read.path, "/src/a");
    assert_eq!(read.remotes.len(), 2);
    assert_eq!(read.remotes[0].name, "origin");
    assert_eq!(read.remotes[0].url, "git@host:a/b.git");
    assert_eq!(read.remotes[1].name, "up\"stream");
    assert_eq!(read.remotes[1].url, "https://host/a/b");
    assert_eq!(
        db.snapshot().repositories[0].remotes,
        "[{\"name\":\"origin\",\"url\":\"git@host:a/b.git\"},{\"name\":\"up\\\"stream\",\"url\":\"https://host/a/b\"}]"
    );
}

#[test]
fn repository_path_is_unique() {
    let mut db = Database::new();
    db.create_git_repository(repository("r1", "/src/a", "1")).unwrap();
    let same_path = db.create_git_repository(repository("r2", "/src/a", "2")).unwrap_err();
    assert_eq!(same_path, StoreError::DuplicateKey);
    assert_eq!(same_path.kind(), ErrorKind::Storage);
    assert_eq!(db.create_git_repository(repository("r1", "/src/b", "2")).unwrap_err(), StoreError::DuplicateKey);
    db.create_git_repository(repository("r2", "/src/b", "2")).unwrap();
    db.delete_git_repository("r1".to_string()).unwrap();
    db.create_git_repository(repository("r3", "/src/a", "3")).unwrap();
    let listed: Vec<String> = db.get_git_repositories().unwrap().into_iter().map(|r| r.id).collect();
    assert_eq!(listed, vec!["r3", "r2"]);
}

#[test]
fn repository_is_touched() {
    let mut db = Database::new();
    db.create_git_repository(repository("r1", "/src/a", "2024-01-01")).unwrap();
    let updates = GitRepositoryUpdate { name: Some("ignored".to_string()), description: None, is_default: Some(true) };
    let touched = db.touch_git_repository("r1".to_string(), updates, "2024-09-09".to_string()).unwrap();
    assert_eq!(touched.updated_at, "2024-09-09");
    assert_eq!(touched.name, "repo r1");
    assert!(!touched.is_default);
    assert_eq!(touched.remotes.len(), 2);
    let updates = GitRepositoryUpdate { name: None, description: None, is_default: None };
    let now = db.update_git_repository("r1".to_string(), updates).unwrap();
    assert!(chrono::DateTime::parse_from_rfc3339(&now.updated_at).is_ok());
    let updates = GitRepositoryUpdate { name: None, description: None, is_default: None };
    assert_eq!(db.update_git_repository("nope".to_string(), updates).unwrap_err(), StoreError::NotFound);
    assert_eq!(db.get_git_repository("nope").unwrap_err(), StoreError::NotFound);
}

#[test]
fn workspace_and_project_are_stored_with_the_texts_given() {
    let mut db = Database::new();
    let back = db.insert_workspace(workspace("w1", "a"), "{\"zoom\":2}".to_string()).unwrap();
    assert!(back.settings.is_empty());
    assert_eq!(db.get_workspace("w1").unwrap().settings["zoom"], serde_json::Value::from(2));
    assert_eq!(
        db.insert_workspace(workspace("w1", "b"), "{}".to_string()).unwrap_err(),
        StoreError::DuplicateKey
    );
    db.insert_project(
        project("p1", "a"),
        "[\"x\"]".to_string(),
        "[]".to_string(),
        "{\"owner\":\"ann\"}".to_string(),
    )
    .unwrap();
    let read = db.get_project("p1").unwrap();
    assert_eq!(read.tags, vec!["x"]);
    assert!(read.settings.is_empty());
    assert_eq!(read.metadata["owner"], serde_json::Value::from("ann"));
    assert_eq!(db.snapshot().projects[0].settings, "[]");
}
