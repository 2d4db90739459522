//! Process supervision logic: relaying the child's two output channels and
//! translating its exit status into the launcher's own outcome.

use vstd::prelude::*;

verus! {

/// Which output channel of the child a line came from.
#[derive(Clone, Copy, PartialEq, Eq, Structural, Debug)]
pub enum StreamKind {
    Stdout,
    Stderr,
}

/// The outcome of a supervised child process run.
#[derive(Clone, Copy, PartialEq, Eq, Structural, Debug)]
pub enum ExitOutcome {
    Success,
    Failure,
}

/// A line ready to be forwarded to the parent's own streams. Lines from the
/// child's error channel carry a mark so the caller can distinguish them
/// visually; the text itself is forwarded verbatim.
pub struct RelayedLine {
    pub text: String,
    pub marked: bool,
}

/// What the supervisor concludes from an exit status: only a wait that
/// succeeded with exit code 0 counts as success.
pub open spec fn outcome_spec(wait_succeeded: bool, code: Option<i32>) -> ExitOutcome {
    if wait_succeeded && code == Some(0i32) {
        ExitOutcome::Success
    } else {
        ExitOutcome::Failure
    }
}

/// Maps the observed exit status of the child to an outcome. `wait_succeeded`
/// is false when the exit status could not be observed at all; `code` is the
/// exit code, absent when the child was ended by a signal.
pub fn outcome_of_wait(wait_succeeded: bool, code: Option<i32>) -> (r: ExitOutcome)
    ensures
        r == outcome_spec(wait_succeeded, code),
        r == ExitOutcome::Success <==> (wait_succeeded && code == Some(0i32)),
{
    if wait_succeeded {
        match code {
            Some(c) => {
                if c == 0 {
                    ExitOutcome::Success
                } else {
                    ExitOutcome::Failure
                }
            },
            None => ExitOutcome::Failure,
        }
    } else {
        ExitOutcome::Failure
    }
}

/// Prepares one line of child output for forwarding: the text is kept
/// verbatim, and lines from the error channel are marked.
pub fn relay_line(line: String, kind: StreamKind) -> (r: RelayedLine)
    ensures
        r.text@ == line@,
        r.marked == (kind == StreamKind::Stderr),
{
    RelayedLine { text: line, marked: kind == StreamKind::Stderr }
}

/// Prepares a whole channel of output for forwarding. The lines keep their
/// source order and their text; exactly the error-channel lines are marked.
/// No ordering is stated between the two channels: each is relayed
/// independently.
pub fn relay_channel(lines: Vec<String>, kind: StreamKind) -> (r: Vec<RelayedLine>)
    ensures
        r@.len() == lines@.len(),
        forall|i: int| 0 <= i < r@.len() ==> r@[i].text@ == lines@[i]@,
        forall|i: int| 0 <= i < r@.len() ==> r@[i].marked == (kind == StreamKind::Stderr),
{
    let mut out: Vec<RelayedLine> = Vec::new();
    let mut i: usize = 0;
    while i < lines.len()
        invariant
            i == out@.len(),
            i <= lines@.len(),
            forall|j: int| 0 <= j < i ==> out@[j].text@ == lines@[j]@,
            forall|j: int| 0 <= j < i ==> out@[j].marked == (kind == StreamKind::Stderr),
        decreases lines@.len() - i,
    {
        let line = lines[i].clone();
        out.push(relay_line(line, kind));
        i = i + 1;
    }
    out
}

} // verus!
