use snippets_hub::database::Database;
use snippets_hub::error::{ErrorKind, StoreError};
use snippets_hub::model::tag::{CreateTodoTagRequest, TodoTag, UpdateTodoTagRequest};
use snippets_hub::model::todo::CreateTodoRequest;
use snippets_hub::palette::{palette_table, tag_color_info};

fn tag(name: &str, color_id: &str) -> CreateTodoTagRequest {
    CreateTodoTagRequest { name: name.to_string(), color_id: color_id.to_string() }
}

fn todo_with(tags: &[&str]) -> CreateTodoRequest {
    CreateTodoRequest {
        title: "t".to_string(),
        description: None,
        status: None,
        priority: None,
        due_date: None,
        estimated_hours: None,
        assignee: None,
        project_id: None,
        parent_id: None,
        recurring_config: None,
        dependencies: None,
        tags: Some(tags.iter().map(|t| t.to_string()).collect()),
    }
}

fn names(list: &[TodoTag]) -> Vec<String> {
    list.iter().map(|t| t.name.clone()).collect()
}

#[test]
fn palette_has_eighteen_colours() {
    let table = palette_table();
    assert_eq!(table.len(), 18);
    let expected = [
        ("red", "#ef4444", "#fef2f2"),
        ("orange", "#f97316", "#fff7ed"),
        ("amber", "#f59e0b", "#fffbeb"),
        ("yellow", "#eab308", "#fefce8"),
        ("lime", "#84cc16", "#f7fee7"),
        ("green", "#22c55e", "#f0fdf4"),
        ("emerald", "#10b981", "#ecfdf5"),
        ("teal", "#14b8a6", "#f0fdfa"),
        ("cyan", "#06b6d4", "#ecfeff"),
        ("sky", "#0ea5e9", "#f0f9ff"),
        ("blue", "#3b82f6", "#eff6ff"),
        ("indigo", "#6366f1", "#eef2ff"),
        ("violet", "#8b5cf6", "#f5f3ff"),
        ("purple", "#a855f7", "#faf5ff"),
        ("fuchsia", "#d946ef", "#fdf4ff"),
        ("pink", "#ec4899", "#fdf2f8"),
        ("rose", "#f43f5e", "#fff1f2"),
        ("gray", "#6b7280", "#f9fafb"),
    ];
    let db = Database::new();
    for (i, (key, color, bg_color)) in expected.iter().enumerate() {
        assert_eq!(table[i].key, *key);
        let info = tag_color_info(key).unwrap();
        assert_eq!(info.color, *color);
        assert_eq!(info.bg_color, *bg_color);
        assert_eq!(db.get_tag_color_info(key).unwrap().color, *color);
    }
    assert_eq!(tag_color_info("Red").unwrap_err(), StoreError::UnknownColor);
    assert_eq!(tag_color_info("").unwrap_err(), StoreError::UnknownColor);
}

#[test]
fn tag_is_read_back_as_created() {
    let mut db = Database::new();
    let created = db.insert_todo_tag("g1".to_string(), 42, tag("urgent", "rose")).unwrap();
    let read = db.get_todo_tag("g1").unwrap();
    for t in [&created, &read] {
        assert_eq!(t.id, "g1");
        assert_eq!(t.name, "urgent");
        assert_eq!(t.color, "#f43f5e");
        assert_eq!(t.bg_color, "#fff1f2");
        assert_eq!(t.color_id, "rose");
        assert_eq!(t.created_at, 42);
    }
}

#[test]
fn created_tag_gets_a_fresh_id() {
    let mut db = Database::new();
    let a = db.create_todo_tag(tag("a", "red")).unwrap();
    let b = db.create_todo_tag(tag("b", "red")).unwrap();
    assert_ne!(a.id, b.id);
    assert!(a.created_at > 1_600_000_000_000);
    assert_eq!(db.get_todo_tag(&b.id).unwrap().name, "b");
}

#[test]
fn unknown_palette_key_is_refused_and_nothing_is_written() {
    let mut db = Database::new();
    let refused = db.create_todo_tag(tag("soft", "mauve")).unwrap_err();
    assert_eq!(refused, StoreError::UnknownColor);
    assert_eq!(refused.kind(), ErrorKind::Validation);
    assert!(db.get_todo_tags_list().unwrap().is_empty());
    assert_eq!(db.insert_todo_tag("g1".to_string(), 1, tag("soft", "mauve")).unwrap_err(), StoreError::UnknownColor);
    assert!(db.get_todo_tags_list().unwrap().is_empty());
    assert!(db.snapshot().tags.is_empty());
}

#[test]
fn taken_tag_id_is_refused() {
    let mut db = Database::new();
    db.insert_todo_tag("g1".to_string(), 1, tag("a", "red")).unwrap();
    assert_eq!(db.insert_todo_tag("g1".to_string(), 2, tag("b", "red")).unwrap_err(), StoreError::DuplicateKey);
    assert_eq!(names(&db.get_todo_tags_list().unwrap()), vec!["a"]);
}

#[test]
fn tags_are_listed_oldest_first() {
    let mut db = Database::new();
    db.insert_todo_tag("g1".to_string(), 30, tag("c", "red")).unwrap();
    db.insert_todo_tag("g2".to_string(), 10, tag("a", "red")).unwrap();
    db.insert_todo_tag("g3".to_string(), 20, tag("b", "red")).unwrap();
    db.insert_todo_tag("g4".to_string(), 10, tag("a2", "red")).unwrap();
    assert_eq!(names(&db.get_todo_tags_list().unwrap()), vec!["a", "a2", "b", "c"]);
}

#[test]
fn tag_update_replaces_name_or_colour() {
    let mut db = Database::new();
    db.insert_todo_tag("g1".to_string(), 1, tag("old", "red")).unwrap();
    let renamed = db
        .update_todo_tag(UpdateTodoTagRequest { id: "g1".to_string(), name: Some("new".to_string()), color_id: None })
        .unwrap();
    assert_eq!(renamed.name, "new");
    assert_eq!(renamed.color_id, "red");
    assert_eq!(renamed.color, "#ef4444");
    let recoloured = db
        .update_todo_tag(UpdateTodoTagRequest { id: "g1".to_string(), name: None, color_id: Some("teal".to_string()) })
        .unwrap();
    assert_eq!(recoloured.name, "new");
    assert_eq!(recoloured.color_id, "teal");
    assert_eq!(recoloured.color, "#14b8a6");
    assert_eq!(recoloured.bg_color, "#f0fdfa");
    assert_eq!(recoloured.created_at, 1);
    let read = db.get_todo_tag("g1").unwrap();
    assert_eq!(read.name, "new");
    assert_eq!(read.color, "#14b8a6");
}

#[test]
fn refused_tag_updates() {
    let mut db = Database::new();
    db.insert_todo_tag("g1".to_string(), 1, tag("old", "red")).unwrap();
    let nothing = UpdateTodoTagRequest { id: "g1".to_string(), name: None, color_id: None };
    assert_eq!(db.update_todo_tag(nothing).unwrap_err(), StoreError::EmptyUpdate);
    assert_eq!(StoreError::EmptyUpdate.kind(), ErrorKind::Validation);
    let bad = UpdateTodoTagRequest { id: "g1".to_string(), name: Some("x".to_string()), color_id: Some("mauve".to_string()) };
    assert_eq!(db.update_todo_tag(bad).unwrap_err(), StoreError::UnknownColor);
    let bad_and_missing = UpdateTodoTagRequest { id: "nope".to_string(), name: None, color_id: Some("mauve".to_string()) };
    assert_eq!(db.update_todo_tag(bad_and_missing).unwrap_err(), StoreError::UnknownColor);
    let missing = UpdateTodoTagRequest { id: "nope".to_string(), name: Some("x".to_string()), color_id: None };
    assert_eq!(db.update_todo_tag(missing).unwrap_err(), StoreError::NotFound);
    assert_eq!(db.get_todo_tag("g1").unwrap().name, "old");
    assert_eq!(db.get_todo_tag("nope").unwrap_err(), StoreError::NotFound);
}

#[test]
fn deleting_a_tag_detaches_it_everywhere() {
    let mut db = Database::new();
    db.insert_todo_tag("x".to_string(), 1, tag("x", "red")).unwrap();
    db.insert_todo_tag("y".to_string(), 2, tag("y", "red")).unwrap();
    db.insert_todo("t1".to_string(), 1, todo_with(&["x", "y"])).unwrap();
    db.insert_todo("t2".to_string(), 2, todo_with(&["x"])).unwrap();
    db.delete_todo_tag("x".to_string()).unwrap();
    assert_eq!(db.get_todo_tag("x").unwrap_err(), StoreError::NotFound);
    assert_eq!(db.get_todo("t1").unwrap().tags, vec!["y"]);
    assert!(db.get_todo("t2").unwrap().tags.is_empty());
    assert_eq!(names(&db.get_todo_tags_list().unwrap()), vec!["y"]);
    db.delete_todo_tag("x".to_string()).unwrap();
    assert_eq!(db.snapshot().relations.len(), 1);
}
