//! Storage engine for a local-first notes application.
//!
//! The library owns the on-disk relational schema for notes, folders, tags,
//! their many-to-many tag associations, a full-text index over note bodies,
//! and a flat key-value store for UI state.  Every operation is specified
//! against a mathematical model of the database contents and verified.
//!
//! One [`engine::DbConnection`] owns the underlying connection, so Rust's
//! exclusive-borrow discipline serializes the operations; a host that
//! shares the handle across threads wraps it in its own lock.

pub mod data;
pub mod db;
pub mod engine;
pub mod laws;
pub mod model;

pub use data::{Folder, Note, SettingPair, StoreError, Tag, TagLink};
pub use engine::{
    cleanup_database, delete_folder_permanently, delete_note_permanently, delete_tag,
    init_database, load_all_folders, load_all_notes, load_all_tags, load_all_ui_state, load_note,
    load_ui_state, save_folder, save_note, save_tag, save_ui_state, search_notes, DbConnection,
};
