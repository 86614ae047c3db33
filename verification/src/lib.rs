//! Verified building blocks of error-report tooling: a model of a report
//! tree, its traversal iterators, attachment lookup, formatting-style
//! combinators, terse report rendering and report-creation hooks.

pub mod report;
pub mod iter;
pub mod bfs_iter;
pub mod utils;
pub mod style;
pub mod handlers;
pub mod terse;
pub mod report_creation;
pub mod format_helpers;
pub mod format_utils;
pub mod alternate;
pub mod timestamp;
