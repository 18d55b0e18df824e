//! Writer and bulk-delete pipeline of a full-text index that lives in the
//! block storage of a host database.

pub mod delete;
pub mod engine;
pub mod error;
pub mod merge_lock;
pub mod rowid;
pub mod segment_metas;
pub mod writer;
