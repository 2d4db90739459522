//! Building the command that actually launches the target script: the
//! environment manager runs it under the project when available, else the
//! environment's own runtime runs it directly. Trailing arguments are passed
//! through verbatim.

use vstd::prelude::*;
use crate::errors::RunError;
use crate::install::ToolCommand;
use crate::locate::ToolAvailability;
use crate::strutil::string_views;

verus! {

/// The launch arguments when the environment manager runs the script.
pub open spec fn uv_launch_args_spec(
    runtime: Seq<char>,
    script: Seq<char>,
    py_args: Seq<Seq<char>>,
) -> Seq<Seq<char>> {
    seq!["run"@, "--project"@, runtime, script] + py_args
}

/// The launch arguments when the environment's own runtime runs the script.
pub open spec fn native_launch_args_spec(
    script: Seq<char>,
    py_args: Seq<Seq<char>>,
) -> Seq<Seq<char>> {
    seq![script] + py_args
}

/// Builds the command that launches the target script: with the environment
/// manager available it runs the script under the project root, else the
/// environment's runtime executable runs it directly; the trailing script
/// arguments follow verbatim, in order, either way.
pub fn build_launch_command(
    tools: &ToolAvailability,
    runtime_path: &String,
    venv_python_path: &String,
    script_path: &String,
    py_args: &Vec<String>,
) -> (r: ToolCommand)
    ensures
        tools.uv matches Some(u) ==> r.program@ == u@ && string_views(r.args@)
            == uv_launch_args_spec(runtime_path@, script_path@, string_views(py_args@)),
        tools.uv is None ==> r.program@ == venv_python_path@ && string_views(r.args@)
            == native_launch_args_spec(script_path@, string_views(py_args@)),
{
    let mut args: Vec<String> = Vec::new();
    let program: String = match &tools.uv {
        Some(u) => {
            args.push(String::from_str("run"));
            args.push(String::from_str("--project"));
            args.push(runtime_path.clone());
            args.push(script_path.clone());
            u.clone()
        },
        None => {
            args.push(script_path.clone());
            venv_python_path.clone()
        },
    };
    let ghost prefix = string_views(args@);
    let mut i: usize = 0;
    while i < py_args.len()
        invariant
            i <= py_args@.len(),
            args@.len() == prefix.len() + i,
            forall|j: int| 0 <= j < prefix.len() ==> (#[trigger] args@[j])@ == prefix[j],
            forall|j: int| prefix.len() <= j < args@.len() ==> (#[trigger] args@[j])@
                == py_args@[j - prefix.len()]@,
        decreases py_args@.len() - i,
    {
        args.push(py_args[i].clone());
        i = i + 1;
    }
    proof {
        assert(string_views(args@) =~= prefix + string_views(py_args@));
        match &tools.uv {
            Some(u) => {
                assert(prefix =~= seq!["run"@, "--project"@, runtime_path@, script_path@]);
                assert(prefix + string_views(py_args@) =~= uv_launch_args_spec(
                    runtime_path@,
                    script_path@,
                    string_views(py_args@),
                ));
            },
            None => {
                assert(prefix =~= seq![script_path@]);
                assert(prefix + string_views(py_args@) =~= native_launch_args_spec(
                    script_path@,
                    string_views(py_args@),
                ));
            },
        }
    }
    ToolCommand { program, args }
}

/// Concludes a spawn attempt: failing to start the child at all is fatal
/// and reported at once, never silently swallowed.
pub fn spawn_outcome(spawned: bool, error_text: String) -> (r: Result<(), RunError>)
    ensures
        spawned ==> r is Ok,
        !spawned ==> (r matches Err(e) && e matches RunError::Spawn(m) && m@ == error_text@),
{
    if spawned {
        Ok(())
    } else {
        Err(RunError::Spawn(error_text))
    }
}

} // verus!
