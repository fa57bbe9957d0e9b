//! Packaging helper for Makepad-based applications.
//!
//! Three pieces, used by a packaging driver while it assembles a
//! distribution tree:
//!
//! - [`format`]: computes the value of the runtime resource-directory
//!   environment variable for each supported package format.
//! - [`probe`]: a write-once cached probe that decides whether the project
//!   being packaged depends on the `makepad-widgets` toolkit, by querying
//!   the build tool's metadata.
//! - [`resources`]: discovers the toolkit's resource directories from
//!   sidecar marker files and plans the recursive copy of their contents
//!   into the distribution tree.
//!
//! Filesystem reads and writes are left to the caller; the functions here
//! work on plain values (file names, file contents, path strings) and state
//! exactly what they compute.

pub mod error;
pub mod format;
pub mod probe;
pub mod resources;
pub mod text;
