//! Configuration resolution for sandboxed single-process execution: expands a
//! loosely-specified execution request (shell-style command strings,
//! colon-delimited mount shorthand, partial resource limits) into the exact,
//! fully-resolved descriptor a privileged sandbox runner consumes, and models
//! the runner's execution report with its closed status vocabulary.
pub mod entities;
pub mod runj;
pub mod text;
