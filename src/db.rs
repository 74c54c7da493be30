//! The persistent store: where its file lives, its tables, and reading and writing them.

pub mod path;
pub mod sqlite;
pub mod store;
pub mod settings;
pub mod window;
