//! Change detection for a static site behind a CDN: which files under a folder
//! differ from what was last recorded of them, so that only those are
//! invalidated.
//!
//! A file is first compared by its metadata, which costs nothing to read. Only
//! where the store does not know the file by its modification time and size is
//! the content read and its checksum compared. A file then comes out as one to
//! skip, as one whose record needs new metadata, or as one to record anew and to
//! invalidate.
//!
//! - [`checksum`]: the fingerprint of a content.
//! - [`rel_path`]: the keys of the store, paths relative to the root folder.
//! - [`db`]: the store, a SQLite table.
//! - [`pipeline`]: the decision for a file, and the commit of a scan's outcomes.
//! - [`model`]: the store and a scan in mathematical terms.
//! - [`laws`]: what is proved of every scan.
//! - [`config`]: the settings of the invalidation service.

pub mod checksum;
pub mod config;
pub mod db;
pub mod laws;
pub mod model;
pub mod pipeline;
pub mod rel_path;
