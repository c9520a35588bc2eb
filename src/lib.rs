//! Parallel file-name search: the decisions behind a recursive directory
//! walk, stated and proved with Verus.
pub mod args;
pub mod laws;
pub mod path;
pub mod report;
pub mod schedule;
pub mod search;
pub mod text;
