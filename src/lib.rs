//! Host hardware snapshots (processor, memory, storage) and a small persistent store for a
//! free-text note and the window's geometry.

pub mod db;
pub mod sys;
pub mod text;
pub mod types;

pub use db::path::{resolve_db_path, BuildMode, PathError};
pub use db::settings::{
    get_saved_entry, get_window_position, get_window_size, set_saved_entry, set_window_position,
};
pub use db::store::{init_db, prepare_store, StoreError};
pub use sys::processor::get_cpu_architecture;
pub use types::{Dimension, Memory, Processor, Storage, WindowInformation};
