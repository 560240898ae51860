//! The plain data of the store: entities, stored rows and requests, each with its value.
pub mod folder;
pub mod project;
pub mod repository;
pub mod snippet;
pub mod stats;
pub mod tag;
pub mod todo;
pub mod workspace;
