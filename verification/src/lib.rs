//! Derives a deterministic semantic version for a git working copy from its
//! branch name, latest matching tag, commit count, and short commit hash.
//!
//! The core is pure, verified logic: branch classification, tag and version
//! grammar parsing, and the branch-class-specific version mutation policy.
//! Invoking git itself, argument parsing, and output serialization live
//! outside the library and hand it plain string values.

pub mod errors;
pub mod git_command;
pub mod laws;
pub mod mutator;
pub mod output;
pub mod patterns;
pub mod resolver;
pub mod text;
pub mod version;
