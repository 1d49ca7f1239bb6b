//! Remediation pipeline for git repositories that still carry a deprecated
//! CI configuration option.
//!
//! The crate models the per-repository remediation run as an explicit state
//! machine: fetch the latest upstream state, re-validate the defect, create a
//! branch, patch the target file, commit, push, and extract a pull-request
//! URL from the push diagnostics.  External commands and file access are
//! performed by the caller, which feeds each outcome back into the machine as
//! an event; every decision the machine takes is verified.

pub mod commands;
pub mod pattern;
pub mod pipeline;
pub mod projects;
pub mod regexes;
pub mod scheduler;
pub mod strings;
pub mod url_extract;
