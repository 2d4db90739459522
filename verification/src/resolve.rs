//! The environment directory resolver: use a valid caller-supplied
//! directory, else discover a conventionally named one under the project
//! root, else decide to provision a new one with whichever tool is
//! available. Neither tool available is fatal.

use vstd::prelude::*;
use crate::cleanup::CleanupManifest;
use crate::errors::RunError;
use crate::locate::ToolAvailability;

verus! {

/// Where a resolved environment directory came from; only a freshly created
/// one is ever eligible for cleanup, and only a non-caller-supplied one for
/// dependency installation into a fresh setup.
#[derive(Clone, Copy, PartialEq, Eq, Structural, Debug)]
pub enum Provenance {
    CallerSupplied,
    Discovered,
    FreshlyCreated,
}

/// A resolved isolated environment: its directory and its provenance. The
/// runtime executable's path is derived from the directory, never stored.
pub struct EnvironmentDescriptor {
    pub dir: String,
    pub provenance: Provenance,
}

/// What the caller observed about a caller-supplied candidate directory:
/// whether it exists as a directory, and whether the runtime executable
/// exists at the platform-conventional subpath under it.
pub struct CandidateStatus {
    pub path: String,
    pub is_dir: bool,
    pub exec_exists: bool,
}

impl CandidateStatus {
    /// A candidate is taken only when it is a directory that holds the
    /// runtime executable at the conventional subpath.
    pub open spec fn valid(self) -> bool {
        self.is_dir && self.exec_exists
    }
}

/// The resolver's decision: an existing directory to use as it stands, a
/// provisioning command to run, or the fatal finding that no tool can
/// provision one.
pub enum ResolveDecision {
    UseExisting(EnvironmentDescriptor),
    Provision { dir: String, program: String, args: Vec<String> },
    NoTool,
}

/// The resolver's decision together with whether a caller-supplied candidate
/// was rejected as invalid — a non-fatal downgrade that the caller warns
/// about.
pub struct ResolveOutcome {
    pub decision: ResolveDecision,
    pub candidate_rejected: bool,
}

/// `base` and `name` joined with the path separator.
pub open spec fn join_spec(base: Seq<char>, name: Seq<char>) -> Seq<char> {
    base + seq!['/'] + name
}

/// Joins a directory and a name with the path separator.
pub fn join_path(base: &String, name: &str) -> (r: String)
    ensures
        r@ == join_spec(base@, name@),
{
    proof {
        reveal_strlit("/");
        assert("/"@ =~= seq!['/']);
    }
    let mut r = base.clone();
    r.append("/");
    r.append(name);
    r
}

/// The runtime executable's path inside an environment directory, at the
/// platform-conventional subpath: `Scripts/python.exe` on Windows, and
/// `bin/python` everywhere else.
pub fn get_python_exec_path(venv_path: &String, windows: bool) -> (r: String)
    ensures
        windows ==> r@ == venv_path@ + "/Scripts/python.exe"@,
        !windows ==> r@ == venv_path@ + "/bin/python"@,
{
    let mut r = venv_path.clone();
    if windows {
        r.append("/Scripts/python.exe");
    } else {
        r.append("/bin/python");
    }
    r
}

/// Whether the candidate was supplied and observed valid.
pub open spec fn candidate_ok(candidate: Option<CandidateStatus>) -> bool {
    match candidate {
        Some(c) => c.valid(),
        None => false,
    }
}

/// Resolves the isolated environment directory, first success winning:
///
/// 1. a valid caller-supplied candidate is used as it stands, with nothing
///    recorded for cleanup even when cleanup is enabled;
/// 2. else the conventional directory names under the project root are
///    tried in priority order, `venv` before `.venv`;
/// 3. else a new `.venv` under the project root is to be provisioned, with
///    the environment manager when available and the native runtime as the
///    fallback, and the new path is recorded for cleanup when enabled;
/// 4. with no tool available at all the run is fatally out of options.
///
/// An invalid candidate is rejected, not fatal: resolution downgrades to
/// discovery and the rejection is reported for a warning.
pub fn get_venv_path(
    candidate: Option<CandidateStatus>,
    runtime_path: &String,
    venv_exists: bool,
    dot_venv_exists: bool,
    tools: &ToolAvailability,
    files_to_clean: &mut CleanupManifest,
) -> (r: ResolveOutcome)
    requires
        old(files_to_clean).wf(),
    ensures
        final(files_to_clean).wf(),
        final(files_to_clean).clean_enabled() == old(files_to_clean).clean_enabled(),
        r.candidate_rejected == (candidate is Some && !candidate_ok(candidate)),
        candidate_ok(candidate) ==> (r.decision matches ResolveDecision::UseExisting(d)
            && d.dir@ == candidate.unwrap().path@ && d.provenance == Provenance::CallerSupplied)
            && *final(files_to_clean) == *old(files_to_clean),
        !candidate_ok(candidate) && venv_exists ==> (r.decision
            matches ResolveDecision::UseExisting(d) && d.dir@ == join_spec(runtime_path@, "venv"@)
            && d.provenance == Provenance::Discovered) && *final(files_to_clean) == *old(files_to_clean),
        !candidate_ok(candidate) && !venv_exists && dot_venv_exists ==> (r.decision
            matches ResolveDecision::UseExisting(d) && d.dir@ == join_spec(runtime_path@, ".venv"@)
            && d.provenance == Provenance::Discovered) && *final(files_to_clean) == *old(files_to_clean),
        !candidate_ok(candidate) && !venv_exists && !dot_venv_exists && (tools.uv is Some
            || tools.python is Some) ==> (r.decision matches ResolveDecision::Provision {
            dir,
            program,
            args,
        } && dir@ == join_spec(runtime_path@, ".venv"@) && program@ == (match tools.uv {
            Some(u) => u@,
            None => tools.python.unwrap()@,
        }) && args@.len() == 2 && args@[0]@ == "venv"@ && args@[1]@ == join_spec(
            runtime_path@,
            ".venv"@,
        )) && final(files_to_clean).paths_view() == (if old(files_to_clean).clean_enabled() {
            old(files_to_clean).paths_view().push(join_spec(runtime_path@, ".venv"@))
        } else {
            old(files_to_clean).paths_view()
        }),
        !candidate_ok(candidate) && !venv_exists && !dot_venv_exists && tools.uv is None
            && tools.python is None ==> (r.decision matches ResolveDecision::NoTool)
            && *final(files_to_clean) == *old(files_to_clean),
{
    let mut candidate_rejected = false;
    match candidate {
        Some(c) => {
            if c.is_dir && c.exec_exists {
                return ResolveOutcome {
                    decision: ResolveDecision::UseExisting(
                        EnvironmentDescriptor {
                            dir: c.path,
                            provenance: Provenance::CallerSupplied,
                        },
                    ),
                    candidate_rejected: false,
                };
            }
            candidate_rejected = true;
        },
        None => {},
    }
    if venv_exists {
        return ResolveOutcome {
            decision: ResolveDecision::UseExisting(
                EnvironmentDescriptor {
                    dir: join_path(runtime_path, "venv"),
                    provenance: Provenance::Discovered,
                },
            ),
            candidate_rejected,
        };
    }
    if dot_venv_exists {
        return ResolveOutcome {
            decision: ResolveDecision::UseExisting(
                EnvironmentDescriptor {
                    dir: join_path(runtime_path, ".venv"),
                    provenance: Provenance::Discovered,
                },
            ),
            candidate_rejected,
        };
    }
    let program: String = match &tools.uv {
        Some(u) => u.clone(),
        None => {
            match &tools.python {
                Some(p) => p.clone(),
                None => {
                    return ResolveOutcome { decision: ResolveDecision::NoTool, candidate_rejected };
                },
            }
        },
    };
    let dir = join_path(runtime_path, ".venv");
    // The new directory did not exist before this step: that is exactly the
    // discovery check that just failed.
    files_to_clean.record_created(dir.clone(), dot_venv_exists);
    let mut args: Vec<String> = Vec::new();
    args.push(String::from_str("venv"));
    args.push(dir.clone());
    ResolveOutcome {
        decision: ResolveDecision::Provision { dir, program, args },
        candidate_rejected,
    }
}

/// Concludes a provisioning step from the tool's exit: success yields the
/// freshly created environment, and a non-zero exit is the fatal
/// provisioning error, surfacing the tool's captured error output.
pub fn finish_provision(dir: String, exit_ok: bool, stderr: String) -> (r: Result<
    EnvironmentDescriptor,
    RunError,
>)
    ensures
        exit_ok ==> (r matches Ok(d) && d.dir@ == dir@ && d.provenance
            == Provenance::FreshlyCreated),
        !exit_ok ==> (r matches Err(e) && e matches RunError::Provisioning(m) && m@ == stderr@),
{
    if exit_ok {
        Ok(EnvironmentDescriptor { dir, provenance: Provenance::FreshlyCreated })
    } else {
        Err(RunError::Provisioning(stderr))
    }
}

} // verus!
