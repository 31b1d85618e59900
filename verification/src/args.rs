//! The command-line options that drive a run, as plain values.
//!
//! Parsing is not the library's business: the surrounding program fills this
//! struct and hands it in.

use vstd::prelude::*;

verus! {

/// Command line arguments.
#[derive(Debug, Clone)]
pub struct Args {
    /// Verbosity level (0-4).
    pub v: u8,
    /// Dry run mode: preview the directories and files that would be created
    /// instead of creating them.
    pub dry_run: bool,
    /// Overwrite existing files.
    pub overwrite: bool,
    /// The project name, used for the binary crate.
    pub name: String,
    /// Add a CI workflow from the built-in template.
    pub with_ci: bool,
    /// Path of a CI workflow file to copy into the project instead of the
    /// built-in template.
    pub ci_yml: Option<String>,
    /// The path of the project directory.
    pub project_dir: String,
}

impl Args {
    /// Whether the run scaffolds a CI workflow at all.
    pub fn wants_ci(&self) -> (r: bool)
        ensures
            r == (self.with_ci || self.ci_yml is Some),
    {
        self.with_ci || self.ci_yml.is_some()
    }

    /// Whether the CI workflow comes from a user-supplied file rather than the
    /// built-in template.  A supplied file always wins over the built-in one,
    /// so at most one of the two is ever used.
    pub fn wants_custom_ci(&self) -> (r: bool)
        ensures
            r == (self.ci_yml is Some),
    {
        self.ci_yml.is_some()
    }
}

} // verus!
