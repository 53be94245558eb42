//! Command-dispatch and result-normalization core of a bitcoin data CLI.
//!
//! The library maps each parsed command to exactly one backing-service call
//! (`dispatch`), folds the heterogeneous outcomes of those calls into one
//! result shape (`outcome`), and renders that shape as terminal text
//! (`render`). Network I/O itself is left to the surrounding binary: the
//! library only decides which call to make and what to do with its result.

pub mod cmd;
pub mod dispatch;
pub mod outcome;
pub mod render;
