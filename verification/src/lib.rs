//! Batch-rename planning: expand glob patterns to candidate paths, filter the
//! candidates with a regular expression, compute a rename plan (source path,
//! target path) by capture-group substitution, and decide, per entry, whether
//! a planned rename may be applied.
//!
//! The library is pure planning and decision logic: it never renames a file.
//! The surrounding binary performs the filesystem mutations after the plan is
//! confirmed.

pub mod confirm;
pub mod execute;
pub mod expand;
pub mod matching;
pub mod paths;
pub mod pipeline;
pub mod plan;
pub mod session;
