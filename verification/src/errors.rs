//! The launcher's fatal errors and the exact mapping from a run's outcome to
//! its own exit code.

use vstd::prelude::*;
use crate::supervise::{outcome_spec, ExitOutcome};

verus! {

/// A fatal error that aborts the run before or at the child's launch.
/// A non-zero child exit is not an error here: it is the expected failure
/// path, carried by `ExitOutcome::Failure`.
#[derive(Debug)]
pub enum RunError {
    /// The target script is missing or unreadable.
    Resolution(String),
    /// Neither the environment manager nor the native runtime was found.
    ToolUnavailable,
    /// Environment creation or dependency installation exited non-zero; the
    /// text is the tool's captured error output.
    Provisioning(String),
    /// The child process could not be started.
    Spawn(String),
}

impl RunError {
    /// The text reported to the user for this error.
    pub fn message(&self) -> (r: String)
        ensures
            match self {
                RunError::Resolution(m) => r@ == m@,
                RunError::ToolUnavailable => r@ == "no runtime executable found"@,
                RunError::Provisioning(m) => r@ == m@,
                RunError::Spawn(m) => r@ == m@,
            },
    {
        match self {
            RunError::Resolution(m) => m.clone(),
            RunError::ToolUnavailable => String::from_str("no runtime executable found"),
            RunError::Provisioning(m) => m.clone(),
            RunError::Spawn(m) => m.clone(),
        }
    }
}

/// The program's own exit code: 0 exactly when the child ran and exited 0,
/// 1 on any fatal error or non-zero child exit.
pub open spec fn exit_code_spec(outcome: Result<ExitOutcome, RunError>) -> u8 {
    if outcome matches Ok(ExitOutcome::Success) {
        0
    } else {
        1
    }
}

/// Maps the run's outcome to the program's exit code. The mapping is exact:
/// a successful child exit is indistinguishable, from the exit code alone,
/// from any other success, and every failure — fatal error or failing child —
/// exits 1.
pub fn final_exit_code(outcome: &Result<ExitOutcome, RunError>) -> (r: u8)
    ensures
        r == exit_code_spec(*outcome),
        r == 0 <==> (*outcome matches Ok(ExitOutcome::Success)),
        r == 0 || r == 1,
{
    match outcome {
        Ok(ExitOutcome::Success) => 0,
        _ => 1,
    }
}

/// Exit-code fidelity: when the child exits with code `n`, the program's
/// own exit code is 0 exactly when `n` is 0, and 1 for every other `n` —
/// the success class of the child is preserved, though not the exact code.
pub proof fn lemma_exit_code_fidelity(n: i32)
    requires
        0 <= n <= 255,
    ensures
        (outcome_spec(true, Some(n)) == ExitOutcome::Success) <==> n == 0,
        (exit_code_spec(Ok(outcome_spec(true, Some(n)))) == 0) <==> n == 0,
        (exit_code_spec(Ok(outcome_spec(true, Some(n)))) == 1) <==> n != 0,
{
}

} // verus!
