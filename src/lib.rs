//! Formats the directive lines that a build script writes to standard output
//! for the build tool that runs it: compiler configuration flags, declarations
//! of the valid configuration space, and rebuild triggers.
//!
//! Every operation here is pure: it computes the line (or the lines) to write.
//! Writing them, and reading the process environment for the guarded
//! operations, is left to the caller.

pub mod directive;
pub mod guard;

pub use directive::{Rustc, RUSTC};
