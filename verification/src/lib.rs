//! Validation of the source path declared for a build target.
//!
//! A target (library, binary, test, example, benchmark) names the file that is
//! its entrypoint. This crate decides, from what the filesystem says about that
//! path, whether the target is acceptable, and renders the diagnostic when it is
//! not. Reading the filesystem is left to the caller: the functions here take
//! the answers as plain values.
//!
//! When a directory holds both conventional entrypoints, only the one that
//! belongs to the target's kind is suggested; the two are never offered
//! together.

pub mod error;
pub mod kind;
pub mod laws;
pub mod path;

pub use crate::error::ValidationError;
pub use crate::kind::{Entrypoint, TargetKind};
pub use crate::path::{validate_target_path_as_source_file, PathStatus, SuggestedEntrypoints};
