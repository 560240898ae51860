use snippets_hub::database::Database;
use snippets_hub::model::stats::GroupCount;
use snippets_hub::model::todo::{CreateTodoRequest, UpdateTodoRequest};

fn todo(title: &str, due: Option<&str>) -> CreateTodoRequest {
    CreateTodoRequest {
        title: title.to_string(),
        description: None,
        status: None,
        priority: None,
        due_date: due.map(|d| d.to_string()),
        estimated_hours: None,
        assignee: None,
        project_id: None,
        parent_id: None,
        recurring_config: None,
        dependencies: None,
        tags: None,
    }
}

fn update(id: &str) -> UpdateTodoRequest {
    UpdateTodoRequest {
        id: id.to_string(),
        title: None,
        description: None,
        status: None,
        priority: None,
        due_date: None,
        estimated_hours: None,
        actual_hours: None,
        progress: None,
        completed: None,
        archived: None,
        tags: None,
    }
}

fn complete(db: &mut Database, id: &str) {
    let mut u = update(id);
    u.completed = Some(true);
    db.update_todo_at(u, 100).unwrap();
}

fn archive(db: &mut Database, id: &str) {
    let mut u = update(id);
    u.archived = Some(true);
    db.update_todo_at(u, 100).unwrap();
}

fn count_of(groups: &[GroupCount], label: &str) -> Option<u64> {
    let hits: Vec<u64> = groups.iter().filter(|g| g.label == label).map(|g| g.count).collect();
    assert!(hits.len() <= 1);
    hits.first().copied()
}

#[test]
fn stats_of_an_empty_store() {
    let db = Database::new();
    let s = db.todo_stats_on("2024-05-10", "2024-05-17").unwrap();
    assert_eq!(s.total, 0);
    assert_eq!(s.completed, 0);
    assert_eq!(s.pending, 0);
    assert_eq!(s.overdue, 0);
    assert!(s.by_priority.is_empty());
    assert!(s.by_project.is_empty());
    assert!(s.by_assignee.is_empty());
}

#[test]
fn stats_count_by_state() {
    let mut db = Database::new();
    for (i, status) in ["todo", "in_progress", "in_progress", "blocked", "completed", "weird"].iter().enumerate() {
        let mut req = todo(status, None);
        req.status = Some(status.to_string());
        db.insert_todo(format!("t{}", i), i as i64, req).unwrap();
    }
    complete(&mut db, "t4");
    complete(&mut db, "t1");
    archive(&mut db, "t2");
    archive(&mut db, "t4");
    let s = db.todo_stats_on("2024-05-10", "2024-05-17").unwrap();
    assert_eq!(s.total, 4);
    assert_eq!(s.completed, 1);
    assert_eq!(s.pending, 3);
    assert_eq!(s.completed + s.pending, s.total);
    assert_eq!(s.in_progress, 1);
    assert_eq!(s.blocked, 1);
}

#[test]
fn stats_count_by_due_date() {
    let mut db = Database::new();
    let dues = [
        ("a", Some("2024-05-09")),
        ("b", Some("2024-05-10")),
        ("c", Some("2024-05-11")),
        ("d", Some("2024-05-17")),
        ("e", Some("2024-05-18")),
        ("f", None),
        ("g", Some("2023-12-31")),
        ("h", Some("2024-05-10")),
        ("i", Some("2024-05-10")),
        ("j", Some("2024-05-1")),
    ];
    for (i, (id, due)) in dues.iter().enumerate() {
        db.insert_todo(id.to_string(), i as i64, todo(id, *due)).unwrap();
    }
    complete(&mut db, "h");
    archive(&mut db, "i");
    complete(&mut db, "g");
    let s = db.todo_stats_on("2024-05-10", "2024-05-17").unwrap();
    assert_eq!(s.total, 9);
    assert_eq!(s.completed, 2);
    assert_eq!(s.pending, 7);
    assert_eq!(s.overdue, 2);
    assert_eq!(s.due_today, 2);
    assert_eq!(s.due_this_week, 3);
    assert!(s.due_today <= s.due_this_week);
    let empty_window = db.todo_stats_on("2024-05-10", "2024-05-10").unwrap();
    assert_eq!(empty_window.due_today, 2);
    assert_eq!(empty_window.due_this_week, 0);
}

#[test]
fn completed_todos_are_due_and_not_overdue() {
    let mut db = Database::new();
    db.insert_todo("done".to_string(), 1, todo("done", Some("2024-05-10"))).unwrap();
    db.insert_todo("late".to_string(), 2, todo("late", Some("2024-05-01"))).unwrap();
    complete(&mut db, "done");
    complete(&mut db, "late");
    let s = db.todo_stats_on("2024-05-10", "2024-05-17").unwrap();
    assert_eq!(s.due_today, 1);
    assert_eq!(s.due_this_week, 1);
    assert_eq!(s.overdue, 0);
    archive(&mut db, "done");
    let s = db.todo_stats_on("2024-05-10", "2024-05-17").unwrap();
    assert_eq!(s.due_today, 0);
    assert_eq!(s.due_this_week, 0);
}

#[test]
fn stats_group_with_labels_for_the_missing() {
    let mut db = Database::new();
    let rows = [
        ("a", Some("high"), Some("p1"), Some("ann")),
        ("b", Some("high"), None, Some("bob")),
        ("c", None, Some("p1"), None),
        ("d", Some("low"), Some("p2"), Some("ann")),
        ("e", None, None, None),
        ("f", Some("none"), Some("none"), Some("unassigned")),
    ];
    for (i, (id, priority, project, assignee)) in rows.iter().enumerate() {
        let mut req = todo(id, None);
        req.priority = priority.map(|p| p.to_string());
        req.project_id = project.map(|p| p.to_string());
        req.assignee = assignee.map(|p| p.to_string());
        db.insert_todo(id.to_string(), i as i64, req).unwrap();
    }
    archive(&mut db, "d");
    let s = db.todo_stats_on("2024-05-10", "2024-05-17").unwrap();
    assert_eq!(s.total, 5);
    assert_eq!(s.by_priority.len(), 2);
    assert_eq!(count_of(&s.by_priority, "high"), Some(2));
    assert_eq!(count_of(&s.by_priority, "none"), Some(3));
    assert_eq!(count_of(&s.by_priority, "low"), None);
    assert_eq!(s.by_project.len(), 2);
    assert_eq!(count_of(&s.by_project, "p1"), Some(2));
    assert_eq!(count_of(&s.by_project, "none"), Some(3));
    assert_eq!(s.by_assignee.len(), 3);
    assert_eq!(count_of(&s.by_assignee, "ann"), Some(1));
    assert_eq!(count_of(&s.by_assignee, "bob"), Some(1));
    assert_eq!(count_of(&s.by_assignee, "unassigned"), Some(3));
    let total: u64 = s.by_priority.iter().map(|g| g.count).sum();
    assert_eq!(total, s.total);
}

#[test]
fn stats_of_today_use_the_current_day() {
    let now = chrono::Utc::now();
    let day = |offset: i64| (now + chrono::TimeDelta::days(offset)).format("%Y-%m-%d").to_string();
    let mut db = Database::new();
    db.insert_todo("yesterday".to_string(), 1, todo("y", Some(&day(-1)))).unwrap();
    db.insert_todo("today".to_string(), 2, todo("t", Some(&day(0)))).unwrap();
    db.insert_todo("soon".to_string(), 3, todo("s", Some(&day(3)))).unwrap();
    db.insert_todo("last".to_string(), 4, todo("d", Some(&day(6)))).unwrap();
    db.insert_todo("edge".to_string(), 5, todo("e", Some(&day(7)))).unwrap();
    db.insert_todo("later".to_string(), 6, todo("l", Some(&day(9)))).unwrap();
    let s = db.get_todo_stats().unwrap();
    assert_eq!(s.total, 6);
    assert_eq!(s.completed + s.pending, s.total);
    assert_eq!(s.overdue, 1);
    assert_eq!(s.due_today, 1);
    assert_eq!(s.due_this_week, 3);
    let fixed = db.todo_stats_on(&day(0), &day(7)).unwrap();
    assert_eq!(fixed.overdue, s.overdue);
    assert_eq!(fixed.due_this_week, s.due_this_week);
}
