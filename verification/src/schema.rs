//! The relational schema behind the store, and the order in which it is brought up.
//!
//! Bringing the schema up is a run over a fixed list of statements. This module holds
//! the list and decides, from what each statement has returned so far, what happens
//! next. Executing a statement is left to whoever holds the connection.
use vstd::prelude::*;

verus! {

pub const CREATE_SNIPPETS: &'static str = "CREATE TABLE IF NOT EXISTS snippets (
                id TEXT PRIMARY KEY,
                title TEXT NOT NULL,
                description TEXT,
                code TEXT NOT NULL,
                language TEXT NOT NULL,
                tags TEXT,
                folder_id TEXT,
                project_id TEXT,
                is_favorite INTEGER NOT NULL DEFAULT 0,
                usage_count INTEGER NOT NULL DEFAULT 0,
                created_at INTEGER NOT NULL,
                updated_at INTEGER NOT NULL
            )";

pub const ADD_SNIPPET_FAVORITE: &'static str =
    "ALTER TABLE snippets ADD COLUMN is_favorite INTEGER NOT NULL DEFAULT 0";

pub const ADD_SNIPPET_USAGE: &'static str =
    "ALTER TABLE snippets ADD COLUMN usage_count INTEGER NOT NULL DEFAULT 0";

pub const CREATE_FOLDERS: &'static str = "CREATE TABLE IF NOT EXISTS folders (
                id TEXT PRIMARY KEY,
                name TEXT NOT NULL,
                parent_id TEXT,
                created_at INTEGER NOT NULL
            )";

pub const CREATE_WORKSPACES: &'static str = "CREATE TABLE IF NOT EXISTS workspaces (
                id TEXT PRIMARY KEY,
                name TEXT NOT NULL,
                description TEXT,
                color TEXT NOT NULL,
                is_default INTEGER NOT NULL DEFAULT 0,
                settings TEXT,
                created_at TEXT NOT NULL,
                updated_at TEXT NOT NULL
            )";

pub const CREATE_PROJECTS: &'static str = "CREATE TABLE IF NOT EXISTS projects (
                id TEXT PRIMARY KEY,
                workspace_id TEXT NOT NULL,
                name TEXT NOT NULL,
                description TEXT,
                project_type TEXT NOT NULL,
                template TEXT,
                parent_id TEXT,
                path TEXT,
                color TEXT NOT NULL,
                icon TEXT NOT NULL,
                tags TEXT,
                settings TEXT,
                metadata TEXT,
                is_folder INTEGER NOT NULL DEFAULT 0,
                created_at TEXT NOT NULL,
                updated_at TEXT NOT NULL
            )";

pub const CREATE_GIT_REPOSITORIES: &'static str = "CREATE TABLE IF NOT EXISTS git_repositories (
                id TEXT PRIMARY KEY,
                name TEXT NOT NULL,
                description TEXT,
                path TEXT NOT NULL UNIQUE,
                is_default INTEGER NOT NULL DEFAULT 0,
                remotes TEXT,
                created_at TEXT NOT NULL,
                updated_at TEXT NOT NULL
            )";

pub const CREATE_SEARCH_MIRROR: &'static str = "CREATE VIRTUAL TABLE IF NOT EXISTS snippets_fts USING fts5(
                id UNINDEXED,
                title,
                description,
                code,
                tags,
                tokenize='trigram'
            )";

pub const MIRROR_AFTER_INSERT: &'static str = "CREATE TRIGGER IF NOT EXISTS snippets_ai AFTER INSERT ON snippets BEGIN
              INSERT INTO snippets_fts(id, title, description, code, tags)
              VALUES (new.id, new.title, new.description, new.code, new.tags);
            END;";

pub const MIRROR_AFTER_DELETE: &'static str = "CREATE TRIGGER IF NOT EXISTS snippets_ad AFTER DELETE ON snippets BEGIN
              DELETE FROM snippets_fts WHERE id = old.id;
            END;";

pub const MIRROR_AFTER_UPDATE: &'static str = "CREATE TRIGGER IF NOT EXISTS snippets_au AFTER UPDATE ON snippets BEGIN
              UPDATE snippets_fts SET
                title = new.title,
                description = new.description,
                code = new.code,
                tags = new.tags
              WHERE id = old.id;
            END;";

pub const CREATE_TODOS: &'static str = "CREATE TABLE IF NOT EXISTS todos (
                id TEXT PRIMARY KEY,
                title TEXT NOT NULL,
                description TEXT,
                status TEXT DEFAULT 'todo',
                priority TEXT,
                due_date TEXT,
                estimated_hours REAL,
                actual_hours REAL,
                progress INTEGER DEFAULT 0,
                assignee TEXT,
                project_id TEXT,
                parent_id TEXT,
                recurring_config TEXT,
                dependencies TEXT,
                completed BOOLEAN DEFAULT FALSE,
                archived BOOLEAN DEFAULT FALSE,
                created_by TEXT,
                updated_by TEXT,
                created_at INTEGER NOT NULL,
                updated_at INTEGER NOT NULL,
                archived_at INTEGER
            )";

pub const CREATE_TODO_TAGS: &'static str = "CREATE TABLE IF NOT EXISTS todo_tags (
                id TEXT PRIMARY KEY,
                name TEXT NOT NULL,
                color TEXT NOT NULL,
                bg_color TEXT NOT NULL,
                color_id TEXT NOT NULL,
                created_at INTEGER NOT NULL
            )";

pub const CREATE_TODO_TAG_RELATIONS: &'static str = "CREATE TABLE IF NOT EXISTS todo_tag_relations (
                todo_id TEXT,
                tag_id TEXT,
                PRIMARY KEY (todo_id, tag_id),
                FOREIGN KEY (todo_id) REFERENCES todos(id) ON DELETE CASCADE,
                FOREIGN KEY (tag_id) REFERENCES todo_tags(id) ON DELETE CASCADE
            )";

pub const CREATE_TODO_COMMENTS: &'static str = "CREATE TABLE IF NOT EXISTS todo_comments (
                id TEXT PRIMARY KEY,
                todo_id TEXT NOT NULL,
                content TEXT NOT NULL,
                author TEXT,
                created_at INTEGER NOT NULL,
                FOREIGN KEY (todo_id) REFERENCES todos(id) ON DELETE CASCADE
            )";

pub const CREATE_TODO_ATTACHMENTS: &'static str = "CREATE TABLE IF NOT EXISTS todo_attachments (
                id TEXT PRIMARY KEY,
                todo_id TEXT NOT NULL,
                filename TEXT NOT NULL,
                filepath TEXT NOT NULL,
                size INTEGER,
                mime_type TEXT,
                created_at INTEGER NOT NULL,
                FOREIGN KEY (todo_id) REFERENCES todos(id) ON DELETE CASCADE
            )";

pub const INDEX_SNIPPETS_PROJECT: &'static str =
    "CREATE INDEX IF NOT EXISTS idx_snippets_project_id ON snippets(project_id)";

pub const INDEX_TODOS_PARENT: &'static str =
    "CREATE INDEX IF NOT EXISTS idx_todos_parent_id ON todos(parent_id)";

pub const INDEX_TODOS_PROJECT: &'static str =
    "CREATE INDEX IF NOT EXISTS idx_todos_project_id ON todos(project_id)";

pub const INDEX_TODOS_DUE_DATE: &'static str =
    "CREATE INDEX IF NOT EXISTS idx_todos_due_date ON todos(due_date)";

pub const INDEX_TODOS_STATUS: &'static str =
    "CREATE INDEX IF NOT EXISTS idx_todos_status ON todos(status)";

/// One statement of the schema run.
pub struct SchemaStatement {
    /// The statement's text.
    pub sql: &'static str,
    /// Whether the run goes on when the engine rejects the statement. This holds of
    /// the additive migrations, which fail on a store that already has the column.
    pub tolerated: bool,
}

/// A statement as a value: its text and whether its failure is tolerated.
pub ghost struct SchemaStatementView {
    pub sql: Seq<char>,
    pub tolerated: bool,
}

impl View for SchemaStatement {
    type V = SchemaStatementView;

    open spec fn view(&self) -> SchemaStatementView {
        SchemaStatementView { sql: self.sql@, tolerated: self.tolerated }
    }
}

/// A statement that has to succeed.
pub open spec fn required(sql: &'static str) -> SchemaStatementView {
    SchemaStatementView { sql: sql@, tolerated: false }
}

/// A statement whose failure is absorbed.
pub open spec fn tolerated(sql: &'static str) -> SchemaStatementView {
    SchemaStatementView { sql: sql@, tolerated: true }
}

/// The schema run: every table, the search mirror with the three hooks that keep it
/// in step with `snippets`, and the indices, in the order in which they are issued.
pub open spec fn schema_plan() -> Seq<SchemaStatementView> {
    seq![
        required(CREATE_SNIPPETS),
        tolerated(ADD_SNIPPET_FAVORITE),
        tolerated(ADD_SNIPPET_USAGE),
        required(CREATE_FOLDERS),
        required(CREATE_WORKSPACES),
        required(CREATE_PROJECTS),
        required(CREATE_GIT_REPOSITORIES),
        required(CREATE_SEARCH_MIRROR),
        required(MIRROR_AFTER_INSERT),
        required(MIRROR_AFTER_DELETE),
        required(MIRROR_AFTER_UPDATE),
        required(CREATE_TODOS),
        required(CREATE_TODO_TAGS),
        required(CREATE_TODO_TAG_RELATIONS),
        required(CREATE_TODO_COMMENTS),
        required(CREATE_TODO_ATTACHMENTS),
        required(INDEX_SNIPPETS_PROJECT),
        required(INDEX_TODOS_PARENT),
        required(INDEX_TODOS_PROJECT),
        required(INDEX_TODOS_DUE_DATE),
        required(INDEX_TODOS_STATUS),
    ]
}

/// The views of a list of statements.
pub open spec fn plan_of(statements: Seq<SchemaStatement>) -> Seq<SchemaStatementView> {
    Seq::new(statements.len(), |i: int| statements[i]@)
}

fn must(sql: &'static str) -> (s: SchemaStatement)
    ensures
        s@ == required(sql),
{
    SchemaStatement { sql, tolerated: false }
}

fn may_fail(sql: &'static str) -> (s: SchemaStatement)
    ensures
        s@ == tolerated(sql),
{
    SchemaStatement { sql, tolerated: true }
}

/// The statements of the schema run, in order.
pub fn schema_statements() -> (plan: Vec<SchemaStatement>)
    ensures
        plan_of(plan@) == schema_plan(),
{
    let mut plan: Vec<SchemaStatement> = Vec::new();
    plan.push(must(CREATE_SNIPPETS));
    plan.push(may_fail(ADD_SNIPPET_FAVORITE));
    plan.push(may_fail(ADD_SNIPPET_USAGE));
    plan.push(must(CREATE_FOLDERS));
    plan.push(must(CREATE_WORKSPACES));
    plan.push(must(CREATE_PROJECTS));
    plan.push(must(CREATE_GIT_REPOSITORIES));
    plan.push(must(CREATE_SEARCH_MIRROR));
    plan.push(must(MIRROR_AFTER_INSERT));
    plan.push(must(MIRROR_AFTER_DELETE));
    plan.push(must(MIRROR_AFTER_UPDATE));
    plan.push(must(CREATE_TODOS));
    plan.push(must(CREATE_TODO_TAGS));
    plan.push(must(CREATE_TODO_TAG_RELATIONS));
    plan.push(must(CREATE_TODO_COMMENTS));
    plan.push(must(CREATE_TODO_ATTACHMENTS));
    plan.push(must(INDEX_SNIPPETS_PROJECT));
    plan.push(must(INDEX_TODOS_PARENT));
    plan.push(must(INDEX_TODOS_PROJECT));
    plan.push(must(INDEX_TODOS_DUE_DATE));
    plan.push(must(INDEX_TODOS_STATUS));
    plan
}

/// What a statement of the run returned: nothing, or the engine's message.
pub enum StatementOutcome {
    Done,
    Rejected(String),
}

/// Where a schema run stands.
pub enum SchemaProgress {
    /// The statement at this position of the plan is to be executed next.
    Execute(usize),
    /// Every statement has been executed; the stores can be used.
    Ready,
    /// A statement that has to succeed was rejected, with this message.
    Failed(String),
}

/// Where a schema run stands, as a value.
pub ghost enum SchemaProgressView {
    Execute(int),
    Ready,
    Failed(Seq<char>),
}

impl View for SchemaProgress {
    type V = SchemaProgressView;

    open spec fn view(&self) -> SchemaProgressView {
        match self {
            SchemaProgress::Execute(i) => SchemaProgressView::Execute(*i as int),
            SchemaProgress::Ready => SchemaProgressView::Ready,
            SchemaProgress::Failed(message) => SchemaProgressView::Failed(message@),
        }
    }
}

/// Whether the outcome at position `i` ends the run: the statement was rejected and
/// its failure is not tolerated.
pub open spec fn is_fatal(
    plan: Seq<SchemaStatementView>,
    outcomes: Seq<StatementOutcome>,
    i: int,
) -> bool {
    &&& 0 <= i < plan.len()
    &&& i < outcomes.len()
    &&& outcomes[i] is Rejected
    &&& !plan[i].tolerated
}

/// Whether some outcome among the first `n` ends the run.
pub open spec fn has_fatal(
    plan: Seq<SchemaStatementView>,
    outcomes: Seq<StatementOutcome>,
    n: int,
) -> bool {
    exists|i: int| 0 <= i < n && is_fatal(plan, outcomes, i)
}

/// The position of the first outcome that ends the run.
pub open spec fn first_fatal(
    plan: Seq<SchemaStatementView>,
    outcomes: Seq<StatementOutcome>,
) -> int {
    choose|i: int|
        is_fatal(plan, outcomes, i) && !has_fatal(plan, outcomes, i)
}

/// Where the run stands after the statements of `plan` have returned `outcomes`, one
/// after the other from the first: it has failed at the first rejected statement that
/// is not tolerated, it is ready when none has failed and all have been executed, and
/// otherwise the next statement is due.
pub open spec fn schema_progress(
    plan: Seq<SchemaStatementView>,
    outcomes: Seq<StatementOutcome>,
) -> SchemaProgressView {
    if has_fatal(plan, outcomes, plan.len() as int) {
        SchemaProgressView::Failed(outcomes[first_fatal(plan, outcomes)]->Rejected_0@)
    } else if outcomes.len() >= plan.len() {
        SchemaProgressView::Ready
    } else {
        SchemaProgressView::Execute(outcomes.len() as int)
    }
}

/// Decides how a schema run goes on, given what its statements have returned so far.
///
/// A rejected statement whose failure is tolerated never stops the run; any other
/// rejection stops it for good and its message is handed back as it came.
pub fn init_schema(plan: &Vec<SchemaStatement>, outcomes: &Vec<StatementOutcome>) -> (next:
    SchemaProgress)
    ensures
        next@ == schema_progress(plan_of(plan@), outcomes@),
{
    let ghost p = plan_of(plan@);
    let mut i: usize = 0;
    while i < plan.len() && i < outcomes.len()
        invariant
            i <= plan.len(),
            i <= outcomes.len(),
            p == plan_of(plan@),
            !has_fatal(p, outcomes@, i as int),
        decreases plan.len() - i,
    {
        match &outcomes[i] {
            StatementOutcome::Rejected(message) => {
                if !plan[i].tolerated {
                    proof {
                        assert(is_fatal(p, outcomes@, i as int));
                    }
                    return SchemaProgress::Failed(message.clone());
                }
            },
            StatementOutcome::Done => {},
        }
        i += 1;
    }
    if outcomes.len() >= plan.len() {
        SchemaProgress::Ready
    } else {
        SchemaProgress::Execute(i)
    }
}

/// A run is ready only when every statement has been executed and every statement that
/// has to succeed has succeeded.
pub proof fn law_ready_means_done(plan: Seq<SchemaStatementView>, outcomes: Seq<StatementOutcome>)
    requires
        schema_progress(plan, outcomes) == SchemaProgressView::Ready,
    ensures
        outcomes.len() >= plan.len(),
        forall|i: int| 0 <= i < plan.len() ==> #[trigger] plan[i].tolerated || outcomes[i] is Done,
{
    assert forall|i: int| 0 <= i < plan.len() implies #[trigger] plan[i].tolerated || outcomes[i] is Done by {
        if !plan[i].tolerated && !(outcomes[i] is Done) {
            assert(is_fatal(plan, outcomes, i));
        }
    }
}

/// A statement whose failure is tolerated never fails the run: where only such
/// statements are rejected, the run goes on or is ready.
pub proof fn law_tolerated_failures_are_absorbed(
    plan: Seq<SchemaStatementView>,
    outcomes: Seq<StatementOutcome>,
)
    requires
        forall|i: int|
            0 <= i < plan.len() && i < outcomes.len() && #[trigger] outcomes[i] is Rejected
                ==> plan[i].tolerated,
    ensures
        !(schema_progress(plan, outcomes) is Failed),
        outcomes.len() < plan.len() ==> schema_progress(plan, outcomes) == SchemaProgressView::Execute(
            outcomes.len() as int,
        ),
{
}

/// The run fails at the first rejected statement that has to succeed, with the
/// message of that rejection.
pub proof fn law_first_failure_decides(
    plan: Seq<SchemaStatementView>,
    outcomes: Seq<StatementOutcome>,
    at: int,
)
    requires
        is_fatal(plan, outcomes, at),
        !has_fatal(plan, outcomes, at),
    ensures
        schema_progress(plan, outcomes) == SchemaProgressView::Failed(outcomes[at]->Rejected_0@),
{
}

/// In the schema run only the two additive migrations may fail: every
/// table, the search mirror with its three hooks, and every index has to be set up.
pub proof fn law_plan_tolerates_only_migrations()
    ensures
        schema_plan().len() == 21,
        forall|i: int| 0 <= i < 21 ==> (#[trigger] schema_plan()[i]).tolerated == (1 <= i <= 2),
{
}

} // verus!
