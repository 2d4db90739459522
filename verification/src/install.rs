//! The dependency installer's decisions: which install commands to run for
//! a resolved environment, from which files exist at the project root and
//! which tool is available. Absence of both dependency files is a silent
//! no-op; a failing install invocation is fatal.

use vstd::prelude::*;
use crate::errors::RunError;
use crate::locate::ToolAvailability;
use crate::resolve::{join_spec, join_path, Provenance};
use crate::strutil::{contains_seq, contains_sub, string_views};

verus! {

/// One external tool invocation: a program and its argument vector.
pub struct ToolCommand {
    pub program: String,
    pub args: Vec<String>,
}

/// The arguments that synchronise a project manifest with the environment
/// manager.
pub open spec fn sync_args_spec(runtime: Seq<char>) -> Seq<Seq<char>> {
    seq!["sync"@, "--project"@, runtime]
}

/// The arguments that install a plain requirements list with the
/// environment manager.
pub open spec fn uv_pip_args_spec(runtime: Seq<char>) -> Seq<Seq<char>> {
    seq!["--directory"@, runtime, "pip"@, "install"@, "-r"@, "requirements.txt"@]
}

/// The arguments that install a plain requirements list with the
/// environment's own runtime.
pub open spec fn native_pip_args_spec(requirements: Seq<char>) -> Seq<Seq<char>> {
    seq!["-m"@, "pip"@, "install"@, "-r"@, requirements]
}

fn sync_command(u: &String, runtime_path: &String) -> (r: ToolCommand)
    ensures
        r.program@ == u@,
        string_views(r.args@) == sync_args_spec(runtime_path@),
{
    let mut args: Vec<String> = Vec::new();
    args.push(String::from_str("sync"));
    args.push(String::from_str("--project"));
    args.push(runtime_path.clone());
    proof {
        assert(string_views(args@) =~= sync_args_spec(runtime_path@));
    }
    ToolCommand { program: u.clone(), args }
}

fn uv_pip_command(u: &String, runtime_path: &String) -> (r: ToolCommand)
    ensures
        r.program@ == u@,
        string_views(r.args@) == uv_pip_args_spec(runtime_path@),
{
    let mut args: Vec<String> = Vec::new();
    args.push(String::from_str("--directory"));
    args.push(runtime_path.clone());
    args.push(String::from_str("pip"));
    args.push(String::from_str("install"));
    args.push(String::from_str("-r"));
    args.push(String::from_str("requirements.txt"));
    proof {
        assert(string_views(args@) =~= uv_pip_args_spec(runtime_path@));
    }
    ToolCommand { program: u.clone(), args }
}

fn native_pip_command(python: &String, requirements_path: &String) -> (r: ToolCommand)
    ensures
        r.program@ == python@,
        string_views(r.args@) == native_pip_args_spec(requirements_path@),
{
    let mut args: Vec<String> = Vec::new();
    args.push(String::from_str("-m"));
    args.push(String::from_str("pip"));
    args.push(String::from_str("install"));
    args.push(String::from_str("-r"));
    args.push(requirements_path.clone());
    proof {
        assert(string_views(args@) =~= native_pip_args_spec(requirements_path@));
    }
    ToolCommand { program: python.clone(), args }
}

/// Plans dependency installation. A caller-supplied environment is never
/// installed into: the caller owns it, and the plan is empty. Otherwise,
/// with the environment manager available, the project manifest and the
/// requirements list each trigger their own invocation, manifest first;
/// without it, the environment's own runtime installs the requirements
/// list, and the manifest plays no part. With neither file present the
/// plan is empty: a silent no-op.
pub fn plan_install(
    provenance: Provenance,
    tools: &ToolAvailability,
    runtime_path: &String,
    venv_python_path: &String,
    pyproject_exists: bool,
    requirements_exists: bool,
) -> (r: Vec<ToolCommand>)
    ensures
        provenance == Provenance::CallerSupplied ==> r@.len() == 0,
        tools.uv matches Some(u) ==> provenance != Provenance::CallerSupplied ==> {
            &&& r@.len() == (if pyproject_exists { 1int } else { 0int })
                + (if requirements_exists { 1int } else { 0int })
            &&& pyproject_exists ==> r@[0].program@ == u@ && string_views(r@[0].args@)
                == sync_args_spec(runtime_path@)
            &&& requirements_exists ==> {
                let i = if pyproject_exists { 1int } else { 0int };
                r@[i].program@ == u@ && string_views(r@[i].args@) == uv_pip_args_spec(
                    runtime_path@,
                )
            }
        },
        tools.uv is None && provenance != Provenance::CallerSupplied ==> {
            &&& r@.len() == (if requirements_exists { 1int } else { 0int })
            &&& requirements_exists ==> r@[0].program@ == venv_python_path@ && string_views(
                r@[0].args@,
            ) == native_pip_args_spec(join_spec(runtime_path@, "requirements.txt"@))
        },
{
    let mut plan: Vec<ToolCommand> = Vec::new();
    if provenance == Provenance::CallerSupplied {
        return plan;
    }
    match &tools.uv {
        Some(u) => {
            if pyproject_exists {
                plan.push(sync_command(u, runtime_path));
            }
            if requirements_exists {
                plan.push(uv_pip_command(u, runtime_path));
            }
        },
        None => {
            if requirements_exists {
                let requirements_path = join_path(runtime_path, "requirements.txt");
                plan.push(native_pip_command(venv_python_path, &requirements_path));
            }
        },
    }
    plan
}

/// Concludes one install invocation: a non-zero exit is the fatal
/// provisioning error, surfacing the tool's captured error output; nothing
/// is retried or tolerated.
pub fn install_step_outcome(exit_ok: bool, stderr: String) -> (r: Result<(), RunError>)
    ensures
        exit_ok ==> r is Ok,
        !exit_ok ==> (r matches Err(e) && e matches RunError::Provisioning(m) && m@ == stderr@),
{
    if exit_ok {
        Ok(())
    } else {
        Err(RunError::Provisioning(stderr))
    }
}

/// Whether initialising a project with the environment manager succeeded:
/// a zero exit does, and so does the tool reporting that the project is
/// already initialised, which is no failure.
pub fn uv_init_succeeded(exit_ok: bool, stderr: &String) -> (r: bool)
    ensures
        r == (exit_ok || contains_seq(stderr@, "Project is already initialized"@)),
{
    exit_ok || contains_sub(stderr.as_str(), "Project is already initialized")
}

} // verus!
