//! The store behind a desktop tool for code snippets: snippets in folders, workspaces
//! with their projects, references to git repositories, and todos with subtasks, tags
//! and statistics.
//!
//! The store is [`database::Database`]. It holds its tables in memory, and each of
//! its operations states what it does as a function on [`database::StoreModel`], the
//! value of the store: the rows of every table in the order of their insertion.
//! Every operation keeps the store well-formed: ids are unique within a table, the
//! search mirror is in step with the snippets, and every relation between a todo and a
//! tag joins rows that exist. A refused operation writes nothing.
//!
//! * [`model`] holds the plain data: entities, stored rows and requests.
//! * [`database`] holds the store and, in its submodules, the operations on each kind
//!   of entity, the statistics, and the rows as a snapshot.
//! * [`laws`] states what holds across operations: what is created is read back, a
//!   search finds exactly what it asks for, deleting goes one level deep.
//! * [`table`] and [`ordering`] find rows by key, choose them by a mask, and list them
//!   by a key; [`text`] searches and compares texts.
//! * [`schema`] holds the statements that bring up the relational schema of the
//!   database file, and decides how a run over them goes on.
//! * [`json`] and [`ident`] are the edge to `serde_json`, `uuid` and `chrono`: encoded
//!   columns, fresh identifiers and the current time.
pub mod database;
pub mod error;
pub mod fields;
pub mod ident;
pub mod json;
pub mod languages;
pub mod laws;
pub mod model;
pub mod ordering;
pub mod palette;
pub mod schema;
pub mod table;
pub mod text;
