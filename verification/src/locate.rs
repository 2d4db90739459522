//! Tool availability: what the executable locator found, and the decisions
//! taken on its raw results. The locator itself runs the platform's
//! executable-search command outside this crate and hands in what it saw.

use vstd::prelude::*;
use crate::errors::RunError;
use crate::strutil::{trim_spec, trim_str};

verus! {

/// Whether the environment-manager tool and the native runtime were found,
/// with their resolved paths. Computed once at startup and read-only
/// afterwards.
pub struct ToolAvailability {
    /// The environment manager's path, when found.
    pub uv: Option<String>,
    /// The native runtime's path, when found.
    pub python: Option<String>,
}

impl ToolAvailability {
    /// Whether any tool is available at all.
    pub fn has_any(&self) -> (r: bool)
        ensures
            r == (self.uv is Some || self.python is Some),
    {
        self.uv.is_some() || self.python.is_some()
    }
}

/// Interprets one run of the executable-search command: a non-zero exit
/// means "not installed", which is no error; on success the tool's path is
/// its output with surrounding whitespace removed.
pub fn locate_result(found: bool, raw_output: &String) -> (r: Option<String>)
    ensures
        match r {
            Some(p) => found && p@ == trim_spec(raw_output@),
            None => !found,
        },
{
    if found {
        Some(trim_str(raw_output.as_str()))
    } else {
        None
    }
}

/// Whether the native runtime should be searched for at all: only as a
/// fallback, when the environment manager was not found.
pub fn native_lookup_needed(uv: &Option<String>) -> (r: bool)
    ensures
        r == (uv is None),
{
    uv.is_none()
}

/// Checks that at least one tool is available; when neither is, the run is
/// aborted with the fatal tool-unavailable error before any further work.
pub fn check_any_tool(tools: &ToolAvailability) -> (r: Result<(), RunError>)
    ensures
        r is Ok <==> (tools.uv is Some || tools.python is Some),
        r is Err ==> r matches Err(RunError::ToolUnavailable),
{
    if tools.has_any() {
        Ok(())
    } else {
        Err(RunError::ToolUnavailable)
    }
}

} // verus!
