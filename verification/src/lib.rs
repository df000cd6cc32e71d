//! The model behind a terminal browser for a document database.
//!
//! The crate holds everything the browser decides: how a nested document
//! becomes a forest of collapsible rows, which requests a load sends and in
//! what order, how statistics are read out of a command reply, and what the
//! detail panel shows. The terminal toolkit and the database driver are
//! driven by the caller, which performs the requests named here and hands
//! back the replies.

pub mod collection_stats;
pub mod db_tree;
pub mod detail;
pub mod document;
pub mod fetch;
pub mod forest;
pub mod mount;
pub mod panel;
pub mod text;
pub mod tree;
