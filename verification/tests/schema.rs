use snippets_hub::schema::{init_schema, schema_statements, SchemaProgress, StatementOutcome};

fn done(n: usize) -> Vec<StatementOutcome> {
    (0..n).map(|_| StatementOutcome::Done).collect()
}

#[test]
fn schema_run_has_every_table_and_index() {
    let plan = schema_statements();
    assert_eq!(plan.len(), 21);
    let tolerated: Vec<usize> = plan.iter().enumerate().filter(|(_, s)| s.tolerated).map(|(i, _)| i).collect();
    assert_eq!(tolerated, vec![1, 2]);
    assert!(plan.iter().all(|s| !s.sql.starts_with("UPDATE")));
    for table in [
        "snippets", "folders", "workspaces", "projects", "git_repositories", "todos", "todo_tags",
        "todo_tag_relations", "todo_comments", "todo_attachments",
    ] {
        let create = format!("CREATE TABLE IF NOT EXISTS {} (", table);
        assert_eq!(plan.iter().filter(|s| s.sql.starts_with(&create)).count(), 1, "{}", table);
    }
    assert!(plan[0].sql.starts_with("CREATE TABLE IF NOT EXISTS snippets"));
    assert!(plan[1].sql.starts_with("ALTER TABLE snippets ADD COLUMN is_favorite"));
    assert!(plan[2].sql.starts_with("ALTER TABLE snippets ADD COLUMN usage_count"));
    assert!(plan[7].sql.starts_with("CREATE VIRTUAL TABLE IF NOT EXISTS snippets_fts USING fts5("));
    assert!(plan[7].sql.contains("tokenize='trigram'"));
    assert!(plan[8].sql.contains("AFTER INSERT ON snippets"));
    assert!(plan[9].sql.contains("AFTER DELETE ON snippets"));
    assert!(plan[10].sql.contains("AFTER UPDATE ON snippets"));
    assert_eq!(plan.iter().filter(|s| s.sql.starts_with("CREATE INDEX IF NOT EXISTS")).count(), 5);
    assert_eq!(plan[20].sql, "CREATE INDEX IF NOT EXISTS idx_todos_status ON todos(status)");
    assert!(plan.iter().all(|s| s.tolerated || s.sql.contains("IF NOT EXISTS")));
}

#[test]
fn schema_run_goes_through_when_nothing_fails() {
    let plan = schema_statements();
    for n in 0..plan.len() {
        match init_schema(&plan, &done(n)) {
            SchemaProgress::Execute(next) => assert_eq!(next, n),
            _ => panic!("statement {} is due", n),
        }
    }
    assert!(matches!(init_schema(&plan, &done(plan.len())), SchemaProgress::Ready));
    assert!(matches!(init_schema(&plan, &done(plan.len() + 3)), SchemaProgress::Ready));
}

#[test]
fn tolerated_failures_do_not_stop_the_run() {
    let plan = schema_statements();
    let mut outcomes = done(1);
    outcomes.push(StatementOutcome::Rejected("duplicate column name: is_favorite".to_string()));
    outcomes.push(StatementOutcome::Rejected("duplicate column name: usage_count".to_string()));
    match init_schema(&plan, &outcomes) {
        SchemaProgress::Execute(next) => assert_eq!(next, 3),
        _ => panic!("the run goes on"),
    }
    outcomes.extend(done(plan.len() - 3));
    assert!(matches!(init_schema(&plan, &outcomes), SchemaProgress::Ready));
}

#[test]
fn a_required_failure_stops_the_run_with_its_message() {
    let plan = schema_statements();
    let mut outcomes = done(7);
    outcomes.push(StatementOutcome::Rejected("no such module: fts5".to_string()));
    match init_schema(&plan, &outcomes) {
        SchemaProgress::Failed(message) => assert_eq!(message, "no such module: fts5"),
        _ => panic!("the run has failed"),
    }
    outcomes.push(StatementOutcome::Done);
    outcomes.push(StatementOutcome::Rejected("later".to_string()));
    match init_schema(&plan, &outcomes) {
        SchemaProgress::Failed(message) => assert_eq!(message, "no such module: fts5"),
        _ => panic!("the run has failed"),
    }
    let first = vec![StatementOutcome::Rejected("disk full".to_string())];
    match init_schema(&plan, &first) {
        SchemaProgress::Failed(message) => assert_eq!(message, "disk full"),
        _ => panic!("the run has failed"),
    }
}
