//! Backup-task orchestration: walks a model of a directory tree, resolves
//! per-directory configuration through parent-to-child inheritance, and
//! produces a deterministic list of backup tasks (git save-and-push, borg
//! archive creation, or structural trigger markers).

pub mod borg;
pub mod config;
pub mod exclude;
pub mod git;
pub mod laws;
pub mod log;
pub mod strutil;
pub mod task;
pub mod trigger;
