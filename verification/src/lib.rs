//! The version-check cache of an update notifier.
//!
//! A command-line tool that tells its user about newer releases keeps, for each
//! registry and package, one small text file with the latest version it has
//! seen. This crate holds the rules of that cache: how a package is named, how
//! its cache file is named, and what to do with the outcome of each file
//! system operation. The rules are pure functions with machine-checked
//! contracts; touching the disk and the clock is left to the caller.

pub mod disk;
pub mod error;
pub mod lifecycle;
pub mod package;
pub mod resolver;
pub mod version_file;

pub use error::{Error, IoKind};
pub use lifecycle::{AgeStep, AgeStepView};
pub use package::{Package, PackageView};
pub use version_file::{VersionFile, VersionFileView};
