//! Decision core of a script launcher that runs a target under a managed
//! isolated runtime environment.
//!
//! The crate holds the logic of the launcher: resolving or provisioning an
//! isolated environment directory, planning dependency installation,
//! composing the child process environment from layered sources, mapping the
//! supervised child's exit status, and tracking artifacts for cleanup.
//! Everything that touches the outside world (subprocesses, the filesystem,
//! the terminal) stays with the caller, who hands the observations in as
//! plain values and carries the decisions out.

pub mod cleanup;
pub mod compose;
pub mod envset;
pub mod errors;
pub mod install;
pub mod launch;
pub mod locate;
pub mod resolve;
pub mod strutil;
pub mod supervise;
