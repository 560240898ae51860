use snippets_hub::database::Database;
use snippets_hub::error::StoreError;
use snippets_hub::model::folder::Folder;
use snippets_hub::model::snippet::CreateSnippetRequest;

fn snippet_in(folder: Option<&str>) -> CreateSnippetRequest {
    CreateSnippetRequest {
        title: "s".to_string(),
        description: String::new(),
        code: "x".to_string(),
        language: "go".to_string(),
        tags: vec!["t".to_string()],
        folder_id: folder.map(|f| f.to_string()),
        project_id: None,
    }
}

fn folder_names(list: &[Folder]) -> Vec<String> {
    list.iter().map(|f| f.name.clone()).collect()
}

#[test]
fn folder_is_created_with_its_fields() {
    let mut db = Database::new();
    let f = db.insert_folder("f1".to_string(), 7, "work".to_string(), Some("f0".to_string())).unwrap();
    assert_eq!(f.id, "f1");
    assert_eq!(f.name, "work");
    assert_eq!(f.parent_id, Some("f0".to_string()));
    assert_eq!(f.created_at, 7);
    let listed = db.get_all_folders().unwrap();
    assert_eq!(listed.len(), 1);
    assert_eq!(listed[0].id, "f1");
    assert_eq!(listed[0].parent_id, Some("f0".to_string()));
    assert_eq!(listed[0].created_at, 7);
}

#[test]
fn created_folder_gets_a_fresh_id() {
    let mut db = Database::new();
    let a = db.create_folder("a".to_string(), None).unwrap();
    let b = db.create_folder("b".to_string(), Some(a.id.clone())).unwrap();
    assert_ne!(a.id, b.id);
    assert_eq!(b.parent_id, Some(a.id));
    assert!(a.created_at > 1_600_000_000_000);
    assert_eq!(db.get_all_folders().unwrap().len(), 2);
}

#[test]
fn taken_folder_id_is_refused() {
    let mut db = Database::new();
    db.insert_folder("f1".to_string(), 1, "a".to_string(), None).unwrap();
    let again = db.insert_folder("f1".to_string(), 2, "b".to_string(), None);
    assert_eq!(again.unwrap_err(), StoreError::DuplicateKey);
    assert_eq!(folder_names(&db.get_all_folders().unwrap()), vec!["a"]);
}

#[test]
fn folders_are_listed_oldest_first() {
    let mut db = Database::new();
    db.insert_folder("f1".to_string(), 30, "c".to_string(), None).unwrap();
    db.insert_folder("f2".to_string(), 10, "a".to_string(), None).unwrap();
    db.insert_folder("f3".to_string(), 20, "b".to_string(), None).unwrap();
    db.insert_folder("f4".to_string(), 20, "b2".to_string(), None).unwrap();
    assert_eq!(folder_names(&db.get_all_folders().unwrap()), vec!["a", "b", "b2", "c"]);
}

#[test]
fn deleting_a_folder_detaches_its_snippets() {
    let mut db = Database::new();
    db.insert_folder("f1".to_string(), 1, "a".to_string(), None).unwrap();
    db.insert_folder("f2".to_string(), 2, "b".to_string(), Some("f1".to_string())).unwrap();
    db.insert_snippet("s1".to_string(), 1, snippet_in(Some("f1"))).unwrap();
    db.insert_snippet("s2".to_string(), 2, snippet_in(Some("f2"))).unwrap();
    db.insert_snippet("s3".to_string(), 3, snippet_in(None)).unwrap();
    db.delete_folder("f1").unwrap();
    assert_eq!(folder_names(&db.get_all_folders().unwrap()), vec!["b"]);
    assert_eq!(db.get_all_folders().unwrap()[0].parent_id, Some("f1".to_string()));
    assert_eq!(db.get_all_snippets().unwrap().len(), 3);
    let detached = db.get_snippet("s1").unwrap().unwrap();
    assert_eq!(detached.folder_id, None);
    assert_eq!(detached.tags, vec!["t"]);
    assert_eq!(detached.updated_at, 1);
    assert_eq!(db.get_snippet("s2").unwrap().unwrap().folder_id, Some("f2".to_string()));
    assert_eq!(db.get_snippet("s3").unwrap().unwrap().folder_id, None);
}

#[test]
fn deleting_a_missing_folder_still_detaches() {
    let mut db = Database::new();
    db.insert_snippet("s1".to_string(), 1, snippet_in(Some("ghost"))).unwrap();
    db.delete_folder("ghost").unwrap();
    assert_eq!(db.get_snippet("s1").unwrap().unwrap().folder_id, None);
}
