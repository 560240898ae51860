use snippets_hub::database::Database;
use snippets_hub::error::StoreError;
use snippets_hub::model::snippet::{CodeSnippet, CreateSnippetRequest, SearchQuery, UpdateSnippetRequest};

fn request(title: &str, code: &str, language: &str, tags: &[&str]) -> CreateSnippetRequest {
    CreateSnippetRequest {
        title: title.to_string(),
        description: format!("about {}", title),
        code: code.to_string(),
        language: language.to_string(),
        tags: tags.iter().map(|t| t.to_string()).collect(),
        folder_id: None,
        project_id: None,
    }
}

fn no_update(id: &str) -> UpdateSnippetRequest {
    UpdateSnippetRequest {
        id: id.to_string(),
        title: None,
        description: None,
        code: None,
        language: None,
        tags: None,
        folder_id: None,
        project_id: None,
        is_favorite: None,
        usage_count: None,
    }
}

fn titles(list: &[CodeSnippet]) -> Vec<String> {
    list.iter().map(|s| s.title.clone()).collect()
}

#[test]
fn snippet_is_read_back_as_created() {
    let mut db = Database::new();
    let mut req = request("quote \"me\"", "print('\\n')", "python", &["a \"b\"", "c\\d", "\u{e9}\u{1f600}", ""]);
    req.folder_id = Some("f1".to_string());
    let created = db.insert_snippet("s1".to_string(), 1000, req).unwrap();
    assert_eq!(created.id, "s1");
    assert_eq!(created.created_at, 1000);
    assert_eq!(created.updated_at, 1000);
    assert!(!created.is_favorite);
    assert_eq!(created.usage_count, 0);
    let read = db.get_snippet("s1").unwrap().unwrap();
    assert_eq!(read.id, created.id);
    assert_eq!(read.title, "quote \"me\"");
    assert_eq!(read.description, created.description);
    assert_eq!(read.code, "print('\\n')");
    assert_eq!(read.language, "python");
    assert_eq!(read.tags, vec!["a \"b\"", "c\\d", "\u{e9}\u{1f600}", ""]);
    assert_eq!(read.folder_id, Some("f1".to_string()));
    assert_eq!(read.project_id, None);
    assert_eq!(read.is_favorite, false);
    assert_eq!(read.usage_count, 0);
    assert_eq!(read.created_at, 1000);
    assert_eq!(read.updated_at, 1000);
}

#[test]
fn created_snippet_gets_a_fresh_id_and_one_timestamp() {
    let mut db = Database::new();
    let a = db.create_snippet(request("a", "1", "go", &[])).unwrap();
    let b = db.create_snippet(request("b", "2", "go", &[])).unwrap();
    assert_ne!(a.id, b.id);
    assert_eq!(a.id.len(), 36);
    assert_eq!(a.created_at, a.updated_at);
    assert!(a.created_at > 1_600_000_000_000);
    assert_eq!(db.get_snippet(&a.id).unwrap().unwrap().title, "a");
    assert_eq!(db.get_all_snippets().unwrap().len(), 2);
}

#[test]
fn missing_snippet_is_none_and_no_error() {
    let db = Database::new();
    assert!(db.get_snippet("nope").unwrap().is_none());
}

#[test]
fn taken_snippet_id_is_refused() {
    let mut db = Database::new();
    db.insert_snippet("s1".to_string(), 1, request("a", "1", "go", &[])).unwrap();
    let again = db.insert_snippet("s1".to_string(), 2, request("b", "2", "go", &[]));
    assert_eq!(again.unwrap_err(), StoreError::DuplicateKey);
    assert_eq!(titles(&db.get_all_snippets().unwrap()), vec!["a"]);
}

#[test]
fn snippets_are_listed_most_recently_updated_first() {
    let mut db = Database::new();
    db.insert_snippet("s1".to_string(), 10, request("first", "1", "go", &[])).unwrap();
    db.insert_snippet("s2".to_string(), 30, request("second", "2", "go", &[])).unwrap();
    db.insert_snippet("s3".to_string(), 20, request("third", "3", "go", &[])).unwrap();
    db.insert_snippet("s4".to_string(), 30, request("fourth", "4", "go", &[])).unwrap();
    assert_eq!(titles(&db.get_all_snippets().unwrap()), vec!["second", "fourth", "third", "first"]);
    db.update_snippet_at(no_update("s1"), 40).unwrap();
    assert_eq!(titles(&db.get_all_snippets().unwrap()), vec!["first", "second", "fourth", "third"]);
}

#[test]
fn language_filter_returns_exactly_that_language_newest_first() {
    let mut db = Database::new();
    db.insert_snippet("s1".to_string(), 5, request("py old", "x", "python", &[])).unwrap();
    db.insert_snippet("s2".to_string(), 7, request("go old", "x", "go", &[])).unwrap();
    db.insert_snippet("s3".to_string(), 9, request("py new", "x", "python", &[])).unwrap();
    db.insert_snippet("s4".to_string(), 8, request("go new", "x", "go", &[])).unwrap();
    let query = SearchQuery { keyword: String::new(), language: Some("go".to_string()), tags: None };
    let found = db.search_snippets(query).unwrap();
    assert_eq!(titles(&found), vec!["go new", "go old"]);
    assert!(found.iter().all(|s| s.language == "go"));
}

#[test]
fn search_filters_are_combined() {
    let mut db = Database::new();
    db.insert_snippet("s1".to_string(), 1, request("sort list", "fn sort() {}", "rust", &["algo", "list"])).unwrap();
    db.insert_snippet("s2".to_string(), 2, request("hash map", "fn hash() {}", "rust", &["algo"])).unwrap();
    db.insert_snippet("s3".to_string(), 3, request("sorting", "def sort(): pass", "python", &["algo", "list"])).unwrap();
    let by_keyword = SearchQuery { keyword: "sort".to_string(), language: None, tags: None };
    assert_eq!(titles(&db.search_snippets(by_keyword).unwrap()), vec!["sorting", "sort list"]);
    let in_code = SearchQuery { keyword: "hash()".to_string(), language: None, tags: None };
    assert_eq!(titles(&db.search_snippets(in_code).unwrap()), vec!["hash map"]);
    let in_description = SearchQuery { keyword: "about hash".to_string(), language: None, tags: None };
    assert_eq!(titles(&db.search_snippets(in_description).unwrap()), vec!["hash map"]);
    let both_tags = SearchQuery {
        keyword: String::new(),
        language: None,
        tags: Some(vec!["algo".to_string(), "list".to_string()]),
    };
    assert_eq!(titles(&db.search_snippets(both_tags).unwrap()), vec!["sorting", "sort list"]);
    let all_three = SearchQuery {
        keyword: "sort".to_string(),
        language: Some("rust".to_string()),
        tags: Some(vec!["list".to_string()]),
    };
    assert_eq!(titles(&db.search_snippets(all_three).unwrap()), vec!["sort list"]);
    let none = SearchQuery { keyword: "SORT".to_string(), language: None, tags: None };
    assert!(db.search_snippets(none).unwrap().is_empty());
    let everything = SearchQuery { keyword: String::new(), language: None, tags: None };
    assert_eq!(db.search_snippets(everything).unwrap().len(), 3);
}

#[test]
fn tag_filter_matches_within_the_encoded_list() {
    let mut db = Database::new();
    db.insert_snippet("s1".to_string(), 1, request("a", "x", "go", &["alpha", "beta"])).unwrap();
    let part = SearchQuery { keyword: String::new(), language: None, tags: Some(vec!["lph".to_string()]) };
    assert_eq!(db.search_snippets(part).unwrap().len(), 1);
    let across = SearchQuery {
        keyword: String::new(),
        language: None,
        tags: Some(vec!["alpha\",\"beta".to_string()]),
    };
    assert_eq!(db.search_snippets(across).unwrap().len(), 1);
    let missing = SearchQuery { keyword: String::new(), language: None, tags: Some(vec!["gamma".to_string()]) };
    assert!(db.search_snippets(missing).unwrap().is_empty());
}

#[test]
fn update_replaces_only_what_is_given() {
    let mut db = Database::new();
    let mut req = request("old", "code", "go", &["t"]);
    req.folder_id = Some("f".to_string());
    db.insert_snippet("s1".to_string(), 10, req).unwrap();
    let mut update = no_update("s1");
    update.title = Some("new".to_string());
    update.is_favorite = Some(true);
    update.usage_count = Some(7);
    let updated = db.update_snippet_at(update, 99).unwrap();
    assert_eq!(updated.title, "new");
    assert_eq!(updated.code, "code");
    assert_eq!(updated.language, "go");
    assert_eq!(updated.tags, vec!["t"]);
    assert_eq!(updated.folder_id, Some("f".to_string()));
    assert!(updated.is_favorite);
    assert_eq!(updated.usage_count, 7);
    assert_eq!(updated.created_at, 10);
    assert_eq!(updated.updated_at, 99);
    let read = db.get_snippet("s1").unwrap().unwrap();
    assert_eq!(read.title, "new");
    assert_eq!(read.tags, vec!["t"]);
    assert_eq!(read.usage_count, 7);
    assert_eq!(read.updated_at, 99);
    let mut retag = no_update("s1");
    retag.tags = Some(vec!["x".to_string(), "y".to_string()]);
    db.update_snippet_at(retag, 100).unwrap();
    assert_eq!(db.get_snippet("s1").unwrap().unwrap().tags, vec!["x", "y"]);
}

#[test]
fn update_of_a_missing_snippet_is_not_found() {
    let mut db = Database::new();
    assert_eq!(db.update_snippet_at(no_update("nope"), 1).unwrap_err(), StoreError::NotFound);
    assert_eq!(db.update_snippet(no_update("nope")).unwrap_err(), StoreError::NotFound);
}

#[test]
fn delete_snippet_removes_it_and_is_quiet_when_missing() {
    let mut db = Database::new();
    db.insert_snippet("s1".to_string(), 1, request("a", "1", "go", &[])).unwrap();
    db.insert_snippet("s2".to_string(), 2, request("b", "2", "go", &[])).unwrap();
    db.delete_snippet("s1").unwrap();
    assert!(db.get_snippet("s1").unwrap().is_none());
    assert_eq!(titles(&db.get_all_snippets().unwrap()), vec!["b"]);
    db.delete_snippet("s1").unwrap();
    assert_eq!(titles(&db.get_all_snippets().unwrap()), vec!["b"]);
}

#[test]
fn snippets_of_a_project() {
    let mut db = Database::new();
    let mut a = request("a", "1", "go", &[]);
    a.project_id = Some("p1".to_string());
    let mut b = request("b", "2", "go", &[]);
    b.project_id = Some("p2".to_string());
    let mut c = request("c", "3", "go", &[]);
    c.project_id = Some("p1".to_string());
    db.insert_snippet("s1".to_string(), 1, a).unwrap();
    db.insert_snippet("s2".to_string(), 2, b).unwrap();
    db.insert_snippet("s3".to_string(), 3, c).unwrap();
    db.insert_snippet("s4".to_string(), 4, request("d", "4", "go", &[])).unwrap();
    assert_eq!(titles(&db.get_snippets_by_project("p1".to_string()).unwrap()), vec!["c", "a"]);
    assert!(db.get_snippets_by_project("p3".to_string()).unwrap().is_empty());
}

#[test]
fn search_mirror_follows_the_snippets() {
    let mut db = Database::new();
    assert!(db.search_mirror().is_empty());
    db.insert_snippet("s1".to_string(), 1, request("one", "1", "go", &["a"])).unwrap();
    db.insert_snippet("s2".to_string(), 2, request("two", "2", "go", &[])).unwrap();
    let mut update = no_update("s1");
    update.title = Some("uno".to_string());
    update.tags = Some(vec!["b".to_string()]);
    update.is_favorite = Some(true);
    db.update_snippet_at(update, 3).unwrap();
    let mirror = db.search_mirror();
    assert_eq!(mirror.len(), 2);
    assert_eq!(mirror[0].id, "s1");
    assert_eq!(mirror[0].title, "uno");
    assert_eq!(mirror[0].description, "about one");
    assert_eq!(mirror[0].code, "1");
    assert_eq!(mirror[0].tags, "[\"b\"]");
    assert_eq!(mirror[1].id, "s2");
    assert_eq!(mirror[1].tags, "[]");
    db.delete_snippet("s1").unwrap();
    let mirror = db.search_mirror();
    assert_eq!(mirror.len(), 1);
    assert_eq!(mirror[0].id, "s2");
}
