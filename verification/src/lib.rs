//! Selecting filesystem entries by layered pattern rules and deciding, entry by
//! entry, whether each one is to be hidden.
//!
//! The crate holds the decisions only: the rules by which a path is matched, the
//! type filter, the reduction of change notifications to candidate paths, and the
//! steps that lead from a candidate to an outcome. Reading directories, watching
//! for changes and renaming files are left to the caller.

pub mod dispatch;
pub mod filesystem;
pub mod filter;
pub mod globs;
pub mod matcher;
pub mod regexes;
pub mod search;
pub mod text;
pub mod watcher;
