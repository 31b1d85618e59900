//! A verified core for a project scaffolder.
//!
//! The library builds the package manifest documents, the fixed scaffold plan
//! (which directories and files a run creates, with their contents), the
//! dry-run preview tree that mirrors that plan, and the safety-gate decisions
//! that guard a run.  File-system access, prompting and argument parsing live
//! outside the library and only hand plain values in and out.

pub mod args;
pub mod gate;
pub mod manifest;
pub mod plan;
pub mod preview;
