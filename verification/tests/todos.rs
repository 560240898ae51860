use snippets_hub::database::Database;
use snippets_hub::error::{ErrorKind, StoreError};
use snippets_hub::model::tag::CreateTodoTagRequest;
use snippets_hub::model::todo::{
    BatchTodoOperation, CreateTodoRequest, Hours, Todo, TodoSearchQuery, UpdateTodoRequest,
};

fn todo(title: &str) -> CreateTodoRequest {
    CreateTodoRequest {
        title: title.to_string(),
        description: None,
        status: None,
        priority: None,
        due_date: None,
        estimated_hours: None,
        assignee: None,
        project_id: None,
        parent_id: None,
        recurring_config: None,
        dependencies: None,
        tags: None,
    }
}

fn child(title: &str, parent: &str) -> CreateTodoRequest {
    let mut req = todo(title);
    req.parent_id = Some(parent.to_string());
    req
}

fn tagged(title: &str, tags: &[&str]) -> CreateTodoRequest {
    let mut req = todo(title);
    req.tags = Some(tags.iter().map(|t| t.to_string()).collect());
    req
}

fn update(id: &str) -> UpdateTodoRequest {
    UpdateTodoRequest {
        id: id.to_string(),
        title: None,
        description: None,
        status: None,
        priority: None,
        due_date: None,
        estimated_hours: None,
        actual_hours: None,
        progress: None,
        completed: None,
        archived: None,
        tags: None,
    }
}

fn query() -> TodoSearchQuery {
    TodoSearchQuery { keyword: None, status: None, priority: None, completed: None, archived: None, tags: None }
}

fn batch(operation: &str, ids: &[&str], updates: Option<UpdateTodoRequest>) -> BatchTodoOperation {
    BatchTodoOperation {
        operation: operation.to_string(),
        todo_ids: ids.iter().map(|i| i.to_string()).collect(),
        updates,
    }
}

fn with_tags(names: &[&str]) -> Database {
    let mut db = Database::new();
    for (i, name) in names.iter().enumerate() {
        let req = CreateTodoTagRequest { name: name.to_string(), color_id: "blue".to_string() };
        db.insert_todo_tag(name.to_string(), i as i64, req).unwrap();
    }
    db
}

fn ids(list: &[Todo]) -> Vec<String> {
    list.iter().map(|t| t.id.clone()).collect()
}

#[test]
fn todo_is_read_back_as_created() {
    let mut db = with_tags(&["urgent", "home"]);
    let req = CreateTodoRequest {
        title: "write report".to_string(),
        description: Some("the \"long\" one".to_string()),
        status: None,
        priority: Some("high".to_string()),
        due_date: Some("2024-06-01".to_string()),
        estimated_hours: Some(Hours { bits: 2.5f64.to_bits() }),
        assignee: Some("ann".to_string()),
        project_id: Some("p1".to_string()),
        parent_id: None,
        recurring_config: Some("{\"every\":\"week\"}".to_string()),
        dependencies: Some(vec!["t0".to_string(), "t9".to_string()]),
        tags: Some(vec!["home".to_string(), "urgent".to_string()]),
    };
    let created = db.insert_todo("t1".to_string(), 500, req).unwrap();
    let read = db.get_todo("t1").unwrap();
    for t in [&created, &read] {
        assert_eq!(t.id, "t1");
        assert_eq!(t.title, "write report");
        assert_eq!(t.description, Some("the \"long\" one".to_string()));
        assert_eq!(t.status, "todo");
        assert_eq!(t.priority, Some("high".to_string()));
        assert_eq!(t.due_date, Some("2024-06-01".to_string()));
        assert_eq!(t.estimated_hours.map(|h| f64::from_bits(h.bits)), Some(2.5));
        assert_eq!(t.actual_hours, None);
        assert_eq!(t.progress, 0);
        assert_eq!(t.assignee, Some("ann".to_string()));
        assert_eq!(t.project_id, Some("p1".to_string()));
        assert_eq!(t.parent_id, None);
        assert_eq!(t.recurring_config, Some("{\"every\":\"week\"}".to_string()));
        assert_eq!(t.dependencies, vec!["t0", "t9"]);
        assert!(!t.completed);
        assert!(!t.archived);
        assert_eq!(t.created_by, Some("ann".to_string()));
        assert_eq!(t.updated_by, Some("ann".to_string()));
        assert_eq!(t.created_at, 500);
        assert_eq!(t.updated_at, 500);
        assert_eq!(t.archived_at, None);
        assert_eq!(t.tags, vec!["home", "urgent"]);
        assert!(t.subtasks.is_empty());
    }
}

#[test]
fn created_todo_keeps_a_given_status() {
    let mut db = Database::new();
    let mut req = todo("a");
    req.status = Some("blocked".to_string());
    assert_eq!(db.insert_todo("t1".to_string(), 1, req).unwrap().status, "blocked");
}

#[test]
fn created_todo_gets_a_fresh_id_and_one_timestamp() {
    let mut db = Database::new();
    let a = db.create_todo(todo("a")).unwrap();
    let b = db.create_todo(todo("b")).unwrap();
    assert_ne!(a.id, b.id);
    assert_eq!(a.id.len(), 36);
    assert_eq!(a.created_at, a.updated_at);
    assert!(a.created_at > 1_600_000_000_000);
    assert_eq!(db.get_todo(&a.id).unwrap().title, "a");
}

#[test]
fn attaching_a_tag_twice_attaches_it_once() {
    let mut db = with_tags(&["x", "y"]);
    let created = db.insert_todo("t1".to_string(), 1, tagged("a", &["x", "y", "x", "x"])).unwrap();
    assert_eq!(created.tags, vec!["x", "y"]);
    assert_eq!(db.get_todo_tags("t1").unwrap(), vec!["x", "y"]);
    assert_eq!(db.snapshot().relations.len(), 2);
}

#[test]
fn todo_with_an_unknown_tag_is_refused_and_nothing_is_written() {
    let mut db = with_tags(&["x"]);
    let refused = db.insert_todo("t1".to_string(), 1, tagged("a", &["x", "nope"]));
    assert_eq!(refused.unwrap_err(), StoreError::MissingReference);
    assert_eq!(StoreError::MissingReference.kind(), ErrorKind::Storage);
    assert!(db.get_todos().unwrap().is_empty());
    assert!(db.snapshot().relations.is_empty());
    assert_eq!(db.create_todo(tagged("a", &["nope"])).unwrap_err(), StoreError::MissingReference);
}

#[test]
fn taken_todo_id_is_refused() {
    let mut db = Database::new();
    db.insert_todo("t1".to_string(), 1, todo("a")).unwrap();
    assert_eq!(db.insert_todo("t1".to_string(), 2, todo("b")).unwrap_err(), StoreError::DuplicateKey);
    assert_eq!(db.get_todo("t1").unwrap().title, "a");
}

#[test]
fn missing_todo_is_an_error() {
    let db = Database::new();
    let missing = db.get_todo("nope").unwrap_err();
    assert_eq!(missing, StoreError::NotFound);
    assert_eq!(missing.kind(), ErrorKind::NotFound);
    assert_eq!(missing.message(), "not found");
}

#[test]
fn subtasks_are_loaded_one_level_deep_oldest_first() {
    let mut db = with_tags(&["x"]);
    db.insert_todo("root".to_string(), 1, todo("root")).unwrap();
    db.insert_todo("c2".to_string(), 30, child("second child", "root")).unwrap();
    let mut first = child("first child", "root");
    first.tags = Some(vec!["x".to_string()]);
    db.insert_todo("c1".to_string(), 20, first).unwrap();
    db.insert_todo("g1".to_string(), 40, child("grandchild", "c1")).unwrap();
    let root = db.get_todo("root").unwrap();
    assert_eq!(ids(&root.subtasks), vec!["c1", "c2"]);
    assert_eq!(root.subtasks[0].tags, vec!["x"]);
    assert!(root.subtasks[0].subtasks.is_empty());
    assert!(root.subtasks[1].subtasks.is_empty());
    assert_eq!(ids(&db.get_subtasks("root").unwrap()), vec!["c1", "c2"]);
    assert_eq!(ids(&db.get_todo("c1").unwrap().subtasks), vec!["g1"]);
    assert!(db.get_subtasks("g1").unwrap().is_empty());
}

#[test]
fn todos_are_listed_most_recently_created_first() {
    let mut db = Database::new();
    db.insert_todo("a".to_string(), 10, todo("a")).unwrap();
    db.insert_todo("b".to_string(), 30, todo("b")).unwrap();
    db.insert_todo("c".to_string(), 20, child("c", "a")).unwrap();
    db.insert_todo("d".to_string(), 30, todo("d")).unwrap();
    let all = db.get_todos().unwrap();
    assert_eq!(ids(&all), vec!["b", "d", "c", "a"]);
    assert_eq!(ids(&all[3].subtasks), vec!["c"]);
}

#[test]
fn updating_only_the_title_leaves_the_rest() {
    let mut db = with_tags(&["x", "y"]);
    let mut req = tagged("old title", &["x", "y"]);
    req.description = Some("d".to_string());
    req.status = Some("in_progress".to_string());
    req.priority = Some("low".to_string());
    req.due_date = Some("2024-01-02".to_string());
    req.dependencies = Some(vec!["z".to_string()]);
    db.insert_todo("t1".to_string(), 10, req).unwrap();
    db.insert_todo("c1".to_string(), 11, child("kid", "t1")).unwrap();
    let mut progress = update("t1");
    progress.progress = Some(40);
    db.update_todo_at(progress, 20).unwrap();
    let before = db.get_todo("t1").unwrap();
    let mut retitle = update("t1");
    retitle.title = Some("new title".to_string());
    let after = db.update_todo_at(retitle, 30).unwrap();
    assert_eq!(after.title, "new title");
    assert_eq!(after.updated_at, 30);
    assert_eq!(after.description, before.description);
    assert_eq!(after.status, "in_progress");
    assert_eq!(after.priority, before.priority);
    assert_eq!(after.due_date, before.due_date);
    assert_eq!(after.progress, 40);
    assert_eq!(after.dependencies, vec!["z"]);
    assert_eq!(after.completed, before.completed);
    assert_eq!(after.archived, before.archived);
    assert_eq!(after.archived_at, before.archived_at);
    assert_eq!(after.created_at, 10);
    assert_eq!(after.tags, vec!["x", "y"]);
    assert_eq!(ids(&after.subtasks), vec!["c1"]);
    let read = db.get_todo("t1").unwrap();
    assert_eq!(read.title, "new title");
    assert_eq!(read.tags, vec!["x", "y"]);
    assert_eq!(read.progress, 40);
}

#[test]
fn update_sets_each_given_field() {
    let mut db = Database::new();
    db.insert_todo("t1".to_string(), 10, todo("a")).unwrap();
    let all = UpdateTodoRequest {
        id: "t1".to_string(),
        title: Some("b".to_string()),
        description: Some("it's here".to_string()),
        status: Some("blocked".to_string()),
        priority: Some("high".to_string()),
        due_date: Some("2030-01-01".to_string()),
        estimated_hours: Some(Hours { bits: 1.0f64.to_bits() }),
        actual_hours: Some(Hours { bits: 3.0f64.to_bits() }),
        progress: Some(55),
        completed: Some(true),
        archived: Some(true),
        tags: None,
    };
    let t = db.update_todo_at(all, 77).unwrap();
    assert_eq!(t.title, "b");
    assert_eq!(t.description, Some("it's here".to_string()));
    assert_eq!(t.status, "blocked");
    assert_eq!(t.priority, Some("high".to_string()));
    assert_eq!(t.due_date, Some("2030-01-01".to_string()));
    assert_eq!(t.estimated_hours, Some(Hours { bits: 1.0f64.to_bits() }));
    assert_eq!(t.actual_hours, Some(Hours { bits: 3.0f64.to_bits() }));
    assert_eq!(t.progress, 55);
    assert!(t.completed);
    assert!(t.archived);
    assert_eq!(t.archived_at, Some(77));
    assert_eq!(t.updated_at, 77);
    let mut unarchive = update("t1");
    unarchive.archived = Some(false);
    let t = db.update_todo_at(unarchive, 88).unwrap();
    assert!(!t.archived);
    assert_eq!(t.archived_at, Some(77));
    assert_eq!(t.updated_at, 88);
}

#[test]
fn update_with_tags_replaces_all_tags() {
    let mut db = with_tags(&["x", "y", "z"]);
    db.insert_todo("t1".to_string(), 1, tagged("a", &["x", "y"])).unwrap();
    db.insert_todo("t2".to_string(), 2, tagged("b", &["x"])).unwrap();
    let mut retag = update("t1");
    retag.tags = Some(vec!["z".to_string(), "x".to_string()]);
    assert_eq!(db.update_todo_at(retag, 5).unwrap().tags, vec!["z", "x"]);
    assert_eq!(db.get_todo_tags("t2").unwrap(), vec!["x"]);
    let mut clear = update("t1");
    clear.tags = Some(Vec::new());
    assert!(db.update_todo_at(clear, 6).unwrap().tags.is_empty());
    assert_eq!(db.get_todo_tags("t2").unwrap(), vec!["x"]);
}

#[test]
fn refused_updates_write_nothing() {
    let mut db = with_tags(&["x"]);
    db.insert_todo("t1".to_string(), 1, tagged("a", &["x"])).unwrap();
    let mut missing = update("nope");
    missing.title = Some("b".to_string());
    assert_eq!(db.update_todo_at(missing, 2).unwrap_err(), StoreError::NotFound);
    let mut unknown = update("t1");
    unknown.title = Some("b".to_string());
    unknown.tags = Some(vec!["nope".to_string()]);
    assert_eq!(db.update_todo_at(unknown, 2).unwrap_err(), StoreError::MissingReference);
    let t = db.get_todo("t1").unwrap();
    assert_eq!(t.title, "a");
    assert_eq!(t.updated_at, 1);
    assert_eq!(t.tags, vec!["x"]);
    assert_eq!(db.update_todo(update("nope")).unwrap_err(), StoreError::NotFound);
}

#[test]
fn update_with_a_repeated_tag_attaches_it_once() {
    let mut db = with_tags(&["x", "y"]);
    db.insert_todo("t1".to_string(), 1, tagged("a", &["y"])).unwrap();
    db.insert_todo("t2".to_string(), 2, tagged("b", &["x"])).unwrap();
    let mut twice = update("t1");
    twice.tags = Some(vec!["x".to_string(), "x".to_string()]);
    let t = db.update_todo_at(twice, 5).unwrap();
    assert_eq!(t.tags, vec!["x"]);
    assert_eq!(t.title, "a");
    assert_eq!(t.updated_at, 5);
    assert_eq!(db.get_todo("t1").unwrap().tags, vec!["x"]);
    assert_eq!(db.get_todo_tags("t2").unwrap(), vec!["x"]);
    assert_eq!(db.snapshot().relations.len(), 2);
    let mut mixed = update("t1");
    mixed.tags = Some(vec!["y".to_string(), "x".to_string(), "y".to_string(), "x".to_string()]);
    assert_eq!(db.update_todo(mixed).unwrap().tags, vec!["y", "x"]);
    assert_eq!(db.snapshot().relations.len(), 3);
}

#[test]
fn update_todo_stamps_the_current_time() {
    let mut db = Database::new();
    db.insert_todo("t1".to_string(), 1, todo("a")).unwrap();
    let t = db.update_todo(update("t1")).unwrap();
    assert!(t.updated_at > 1_600_000_000_000);
    assert_eq!(t.created_at, 1);
}

#[test]
fn deleting_a_todo_removes_its_direct_subtasks_only() {
    let mut db = with_tags(&["x", "y"]);
    db.insert_todo("root".to_string(), 1, tagged("root", &["x"])).unwrap();
    db.insert_todo("c1".to_string(), 2, { let mut r = child("c1", "root"); r.tags = Some(vec!["x".to_string(), "y".to_string()]); r }).unwrap();
    db.insert_todo("c2".to_string(), 3, child("c2", "root")).unwrap();
    db.insert_todo("g1".to_string(), 4, { let mut r = child("g1", "c1"); r.tags = Some(vec!["y".to_string()]); r }).unwrap();
    db.insert_todo("other".to_string(), 5, tagged("other", &["x"])).unwrap();
    assert_eq!(db.snapshot().relations.len(), 5);
    db.delete_todo("root".to_string()).unwrap();
    assert_eq!(db.get_todo("root").unwrap_err(), StoreError::NotFound);
    assert_eq!(db.get_todo("c1").unwrap_err(), StoreError::NotFound);
    assert_eq!(db.get_todo("c2").unwrap_err(), StoreError::NotFound);
    let grandchild = db.get_todo("g1").unwrap();
    assert_eq!(grandchild.parent_id, Some("c1".to_string()));
    assert_eq!(grandchild.tags, vec!["y"]);
    assert_eq!(db.get_todo("other").unwrap().tags, vec!["x"]);
    assert_eq!(ids(&db.get_todos().unwrap()), vec!["other", "g1"]);
    let left = db.snapshot().relations;
    assert_eq!(left.len(), 2);
    assert!(left.iter().all(|r| r.todo_id == "g1" || r.todo_id == "other"));
    db.delete_todo("root".to_string()).unwrap();
    assert_eq!(db.get_todos().unwrap().len(), 2);
}

#[test]
fn search_combines_its_filters() {
    let mut db = with_tags(&["x", "y"]);
    let mut a = tagged("buy milk", &["x"]);
    a.priority = Some("high".to_string());
    db.insert_todo("a".to_string(), 1, a).unwrap();
    let mut b = tagged("call bob", &["y"]);
    b.description = Some("about the milk order".to_string());
    b.status = Some("blocked".to_string());
    db.insert_todo("b".to_string(), 2, b).unwrap();
    let mut c = todo("write code");
    c.priority = Some("high".to_string());
    db.insert_todo("c".to_string(), 3, c).unwrap();
    let mut done = update("c");
    done.completed = Some(true);
    db.update_todo_at(done, 10).unwrap();
    let mut archive = update("a");
    archive.archived = Some(true);
    db.update_todo_at(archive, 5).unwrap();

    assert_eq!(ids(&db.search_todos(query()).unwrap()), vec!["c", "a", "b"]);
    let mut q = query();
    q.keyword = Some("milk".to_string());
    assert_eq!(ids(&db.search_todos(q).unwrap()), vec!["a", "b"]);
    let mut q = query();
    q.keyword = Some(String::new());
    assert_eq!(db.search_todos(q).unwrap().len(), 3);
    let mut q = query();
    q.status = Some("blocked".to_string());
    assert_eq!(ids(&db.search_todos(q).unwrap()), vec!["b"]);
    let mut q = query();
    q.priority = Some("high".to_string());
    assert_eq!(ids(&db.search_todos(q).unwrap()), vec!["c", "a"]);
    let mut q = query();
    q.completed = Some(true);
    assert_eq!(ids(&db.search_todos(q).unwrap()), vec!["c"]);
    let mut q = query();
    q.archived = Some(false);
    assert_eq!(ids(&db.search_todos(q).unwrap()), vec!["c", "b"]);
    let mut q = query();
    q.tags = Some(vec!["x".to_string(), "y".to_string()]);
    assert_eq!(ids(&db.search_todos(q).unwrap()), vec!["a", "b"]);
    let mut q = query();
    q.tags = Some(vec!["y".to_string()]);
    assert_eq!(ids(&db.search_todos(q).unwrap()), vec!["b"]);
    let mut q = query();
    q.tags = Some(Vec::new());
    assert_eq!(db.search_todos(q).unwrap().len(), 3);
    let mut q = query();
    q.priority = Some("high".to_string());
    q.archived = Some(true);
    q.keyword = Some("buy".to_string());
    q.tags = Some(vec!["x".to_string()]);
    assert_eq!(ids(&db.search_todos(q).unwrap()), vec!["a"]);
    let mut q = query();
    q.priority = Some("high".to_string());
    q.tags = Some(vec!["y".to_string()]);
    assert!(db.search_todos(q).unwrap().is_empty());
}

#[test]
fn batch_complete_marks_the_todos_that_exist() {
    let mut db = Database::new();
    db.insert_todo("a".to_string(), 1, todo("a")).unwrap();
    db.insert_todo("b".to_string(), 2, todo("b")).unwrap();
    db.insert_todo("c".to_string(), 3, todo("c")).unwrap();
    let done = db.batch_update_todos_at(batch("complete", &["c", "nope", "a", "c"], None), 50).unwrap();
    assert_eq!(ids(&done), vec!["c", "a", "c"]);
    for t in &done {
        assert!(t.completed);
        assert_eq!(t.status, "completed");
        assert_eq!(t.updated_at, 50);
    }
    let untouched = db.get_todo("b").unwrap();
    assert!(!untouched.completed);
    assert_eq!(untouched.status, "todo");
    assert_eq!(untouched.updated_at, 2);
}

#[test]
fn batch_archive_stamps_the_time_of_archiving() {
    let mut db = Database::new();
    db.insert_todo("a".to_string(), 1, todo("a")).unwrap();
    db.insert_todo("b".to_string(), 2, todo("b")).unwrap();
    let done = db.batch_update_todos_at(batch("archive", &["b"], None), 60).unwrap();
    assert_eq!(ids(&done), vec!["b"]);
    assert!(done[0].archived);
    assert_eq!(done[0].archived_at, Some(60));
    assert_eq!(done[0].updated_at, 60);
    assert!(!done[0].completed);
    assert!(!db.get_todo("a").unwrap().archived);
}

#[test]
fn batch_delete_removes_every_named_todo_and_returns_nothing() {
    let mut db = with_tags(&["x"]);
    db.insert_todo("a".to_string(), 1, tagged("a", &["x"])).unwrap();
    db.insert_todo("b".to_string(), 2, todo("b")).unwrap();
    db.insert_todo("c".to_string(), 3, child("c", "a")).unwrap();
    db.insert_todo("d".to_string(), 4, todo("d")).unwrap();
    let out = db.batch_update_todos_at(batch("delete", &["a", "b", "nope", "a"], None), 9).unwrap();
    assert!(out.is_empty());
    assert_eq!(db.get_todo("a").unwrap_err(), StoreError::NotFound);
    assert_eq!(db.get_todo("b").unwrap_err(), StoreError::NotFound);
    assert_eq!(ids(&db.get_todos().unwrap()), vec!["d", "c"]);
    assert!(db.snapshot().relations.is_empty());
}

#[test]
fn batch_update_applies_one_update_to_each() {
    let mut db = with_tags(&["x", "y"]);
    db.insert_todo("a".to_string(), 1, tagged("a", &["x"])).unwrap();
    db.insert_todo("b".to_string(), 2, todo("b")).unwrap();
    db.insert_todo("c".to_string(), 3, todo("c")).unwrap();
    let mut shared = update("ignored");
    shared.priority = Some("low".to_string());
    shared.tags = Some(vec!["y".to_string()]);
    let out = db.batch_update_todos_at(batch("update", &["b", "a"], Some(shared)), 70).unwrap();
    assert_eq!(ids(&out), vec!["b", "a"]);
    for t in &out {
        assert_eq!(t.priority, Some("low".to_string()));
        assert_eq!(t.tags, vec!["y"]);
        assert_eq!(t.updated_at, 70);
    }
    assert_eq!(out[1].title, "a");
    assert_eq!(db.get_todo("c").unwrap().priority, None);
    let same = db.batch_update_todos_at(batch("update", &["c", "a"], None), 80).unwrap();
    assert_eq!(ids(&same), vec!["c", "a"]);
    assert_eq!(same[0].updated_at, 3);
}

#[test]
fn batch_update_is_refused_as_a_whole() {
    let mut db = with_tags(&["x"]);
    db.insert_todo("a".to_string(), 1, tagged("a", &["x"])).unwrap();
    db.insert_todo("b".to_string(), 2, todo("b")).unwrap();
    let mut shared = update("ignored");
    shared.title = Some("changed".to_string());
    shared.tags = Some(Vec::new());
    let refused = db.batch_update_todos_at(batch("update", &["a", "nope", "b"], Some(shared)), 70);
    assert_eq!(refused.unwrap_err(), StoreError::NotFound);
    let a = db.get_todo("a").unwrap();
    assert_eq!(a.title, "a");
    assert_eq!(a.updated_at, 1);
    assert_eq!(a.tags, vec!["x"]);
    assert_eq!(db.get_todo("b").unwrap().title, "b");
}

#[test]
fn unknown_batch_operation_is_a_validation_error() {
    let mut db = Database::new();
    db.insert_todo("a".to_string(), 1, todo("a")).unwrap();
    let refused = db.batch_update_todos_at(batch("explode", &["a"], None), 5).unwrap_err();
    assert_eq!(refused, StoreError::UnknownOperation);
    assert_eq!(refused.kind(), ErrorKind::Validation);
    assert_eq!(db.batch_update_todos(batch("Complete", &["a"], None)).unwrap_err(), StoreError::UnknownOperation);
    assert_eq!(db.get_todo("a").unwrap().updated_at, 1);
}

#[test]
fn batch_stamps_the_current_time() {
    let mut db = Database::new();
    db.insert_todo("a".to_string(), 1, todo("a")).unwrap();
    let done = db.batch_update_todos(batch("complete", &["a"], None)).unwrap();
    assert!(done[0].updated_at > 1_600_000_000_000);
    assert!(db.batch_update_todos(batch("delete", &["a"], None)).unwrap().is_empty());
    assert!(db.get_todos().unwrap().is_empty());
}
