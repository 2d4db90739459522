use py_executer::cleanup::CleanupManifest;
use py_executer::errors::{final_exit_code, RunError};
use py_executer::install::{install_step_outcome, plan_install, uv_init_succeeded};
use py_executer::launch::{build_launch_command, spawn_outcome};
use py_executer::locate::{check_any_tool, locate_result, native_lookup_needed, ToolAvailability};
use py_executer::resolve::{
    finish_provision, get_python_exec_path, get_venv_path, join_path, CandidateStatus,
    Provenance, ResolveDecision,
};
use py_executer::strutil::{contains_sub, find_char, trim_str};
use py_executer::supervise::{outcome_of_wait, relay_channel, relay_line, ExitOutcome, StreamKind};

fn s(x: &str) -> String {
    String::from(x)
}

fn tools(uv: Option<&str>, python: Option<&str>) -> ToolAvailability {
    ToolAvailability {
        uv: uv.map(String::from),
        python: python.map(String::from),
    }
}

#[test]
fn caller_supplied_env_used_unchanged() {
    // A valid caller-supplied directory is returned as it stands and adds
    // nothing to the cleanup manifest, even with cleanup enabled.
    let mut manifest = CleanupManifest::new(true);
    let candidate = CandidateStatus {
        path: s("/custom/venv"),
        is_dir: true,
        exec_exists: true,
    };
    let r = get_venv_path(
        Some(candidate),
        &s("/proj"),
        true,
        true,
        &tools(Some("/usr/bin/uv"), None),
        &mut manifest,
    );
    assert!(!r.candidate_rejected);
    match r.decision {
        ResolveDecision::UseExisting(d) => {
            assert_eq!(d.dir, "/custom/venv");
            assert_eq!(d.provenance, Provenance::CallerSupplied);
        }
        _ => panic!("expected the caller-supplied directory"),
    }
    assert_eq!(manifest.len(), 0);
}

#[test]
fn invalid_candidate_downgrades_to_discovery() {
    let mut manifest = CleanupManifest::new(false);
    let candidate = CandidateStatus {
        path: s("/custom/venv"),
        is_dir: true,
        exec_exists: false,
    };
    let r = get_venv_path(
        Some(candidate),
        &s("/proj"),
        false,
        true,
        &tools(None, Some("/usr/bin/python3")),
        &mut manifest,
    );
    assert!(r.candidate_rejected);
    match r.decision {
        ResolveDecision::UseExisting(d) => {
            assert_eq!(d.dir, "/proj/.venv");
            assert_eq!(d.provenance, Provenance::Discovered);
        }
        _ => panic!("expected a discovered directory"),
    }
}

#[test]
fn discovery_prefers_venv_over_dot_venv() {
    let mut manifest = CleanupManifest::new(false);
    let r = get_venv_path(
        None,
        &s("/proj"),
        true,
        true,
        &tools(Some("/usr/bin/uv"), None),
        &mut manifest,
    );
    match r.decision {
        ResolveDecision::UseExisting(d) => {
            assert_eq!(d.dir, "/proj/venv");
            assert_eq!(d.provenance, Provenance::Discovered);
        }
        _ => panic!("expected a discovered directory"),
    }
}

#[test]
fn provisions_new_venv_when_none_found() {
    // No environment present, no dependency files, environment manager
    // available: a new .venv is provisioned, the installer no-ops, and with
    // cleanup enabled the provisioned directory is removed after the run.
    let mut manifest = CleanupManifest::new(true);
    let t = tools(Some("/usr/bin/uv"), None);
    let r = get_venv_path(None, &s("/proj"), false, false, &t, &mut manifest);
    let dir = match r.decision {
        ResolveDecision::Provision { dir, program, args } => {
            assert_eq!(dir, "/proj/.venv");
            assert_eq!(program, "/usr/bin/uv");
            assert_eq!(args, vec![s("venv"), s("/proj/.venv")]);
            dir
        }
        _ => panic!("expected a provisioning decision"),
    };
    let descriptor = finish_provision(dir, true, String::new()).unwrap();
    assert_eq!(descriptor.dir, "/proj/.venv");
    assert_eq!(descriptor.provenance, Provenance::FreshlyCreated);

    let plan = plan_install(
        descriptor.provenance,
        &t,
        &s("/proj"),
        &s("/proj/.venv/bin/python"),
        false,
        false,
    );
    assert!(plan.is_empty());

    assert_eq!(manifest.len(), 1);
    let paths = manifest.take_paths();
    assert_eq!(paths, vec![s("/proj/.venv")]);
}

#[test]
fn clean_disabled_records_nothing() {
    // With cleanup disabled the manifest is empty at the end of the run,
    // whatever was provisioned.
    let mut manifest = CleanupManifest::new(false);
    let r = get_venv_path(
        None,
        &s("/proj"),
        false,
        false,
        &tools(Some("/usr/bin/uv"), None),
        &mut manifest,
    );
    assert!(matches!(r.decision, ResolveDecision::Provision { .. }));
    manifest.record_created(s("/proj/pyproject.toml"), false);
    assert_eq!(manifest.len(), 0);
    assert!(manifest.take_paths().is_empty());
}

#[test]
fn preexisting_path_is_never_recorded() {
    let mut manifest = CleanupManifest::new(true);
    manifest.record_created(s("/proj/uv.lock"), true);
    assert_eq!(manifest.len(), 0);
    manifest.record_created(s("/proj/pyproject.toml"), false);
    let paths = manifest.take_paths();
    assert_eq!(paths, vec![s("/proj/pyproject.toml")]);
}

#[test]
fn no_tool_is_fatal() {
    let mut manifest = CleanupManifest::new(false);
    let t = tools(None, None);
    let r = get_venv_path(None, &s("/proj"), false, false, &t, &mut manifest);
    assert!(matches!(r.decision, ResolveDecision::NoTool));

    let err = check_any_tool(&t).unwrap_err();
    assert!(matches!(err, RunError::ToolUnavailable));
    assert_eq!(err.message(), "no runtime executable found");
    assert_eq!(final_exit_code(&Err(err)), 1);
}

#[test]
fn provisioning_failure_surfaces_stderr() {
    let r = finish_provision(s("/proj/.venv"), false, s("disk full"));
    match r {
        Err(RunError::Provisioning(m)) => assert_eq!(m, "disk full"),
        _ => panic!("expected a provisioning error"),
    }
}

#[test]
fn install_plan_with_uv_runs_sync_then_pip() {
    let t = tools(Some("/usr/bin/uv"), None);
    let plan = plan_install(
        Provenance::Discovered,
        &t,
        &s("/proj"),
        &s("/proj/.venv/bin/python"),
        true,
        true,
    );
    assert_eq!(plan.len(), 2);
    assert_eq!(plan[0].program, "/usr/bin/uv");
    assert_eq!(plan[0].args, vec![s("sync"), s("--project"), s("/proj")]);
    assert_eq!(plan[1].program, "/usr/bin/uv");
    assert_eq!(
        plan[1].args,
        vec![
            s("--directory"),
            s("/proj"),
            s("pip"),
            s("install"),
            s("-r"),
            s("requirements.txt"),
        ]
    );
}

#[test]
fn install_plan_without_uv_uses_venv_python() {
    let t = tools(None, Some("/usr/bin/python3"));
    let plan = plan_install(
        Provenance::Discovered,
        &t,
        &s("/proj"),
        &s("/proj/.venv/bin/python"),
        true,
        true,
    );
    assert_eq!(plan.len(), 1);
    assert_eq!(plan[0].program, "/proj/.venv/bin/python");
    assert_eq!(
        plan[0].args,
        vec![
            s("-m"),
            s("pip"),
            s("install"),
            s("-r"),
            s("/proj/requirements.txt"),
        ]
    );
}

#[test]
fn install_plan_empty_without_dependency_files() {
    let t = tools(Some("/usr/bin/uv"), None);
    assert!(plan_install(Provenance::FreshlyCreated, &t, &s("/proj"), &s("/p"), false, false).is_empty());
    let t = tools(None, Some("/usr/bin/python3"));
    assert!(plan_install(Provenance::Discovered, &t, &s("/proj"), &s("/p"), true, false).is_empty());
}

#[test]
fn caller_supplied_env_is_never_installed_into() {
    let t = tools(Some("/usr/bin/uv"), None);
    let plan = plan_install(
        Provenance::CallerSupplied,
        &t,
        &s("/proj"),
        &s("/custom/venv/bin/python"),
        true,
        true,
    );
    assert!(plan.is_empty());
}

#[test]
fn install_failure_is_fatal_with_stderr() {
    assert!(install_step_outcome(true, String::new()).is_ok());
    match install_step_outcome(false, s("resolution failed")) {
        Err(RunError::Provisioning(m)) => {
            assert_eq!(m, "resolution failed");
        }
        _ => panic!("expected a provisioning error"),
    }
}

#[test]
fn uv_init_tolerates_already_initialized() {
    assert!(uv_init_succeeded(true, &s("")));
    assert!(uv_init_succeeded(
        false,
        &s("error: Project is already initialized in /proj")
    ));
    assert!(!uv_init_succeeded(false, &s("something broke")));
}

#[test]
fn launch_command_with_uv() {
    let t = tools(Some("/usr/bin/uv"), None);
    let cmd = build_launch_command(
        &t,
        &s("/proj"),
        &s("/proj/.venv/bin/python"),
        &s("/proj/hello.py"),
        &vec![s("--flag"), s("7")],
    );
    assert_eq!(cmd.program, "/usr/bin/uv");
    assert_eq!(
        cmd.args,
        vec![
            s("run"),
            s("--project"),
            s("/proj"),
            s("/proj/hello.py"),
            s("--flag"),
            s("7"),
        ]
    );
}

#[test]
fn launch_command_without_uv() {
    let t = tools(None, Some("/usr/bin/python3"));
    let cmd = build_launch_command(
        &t,
        &s("/proj"),
        &s("/proj/.venv/bin/python"),
        &s("/proj/hello.py"),
        &vec![],
    );
    assert_eq!(cmd.program, "/proj/.venv/bin/python");
    assert_eq!(cmd.args, vec![s("/proj/hello.py")]);
}

#[test]
fn spawn_failure_is_fatal() {
    assert!(spawn_outcome(true, String::new()).is_ok());
    match spawn_outcome(false, s("permission denied")) {
        Err(e) => {
            assert!(matches!(e, RunError::Spawn(_)));
            assert_eq!(e.message(), "permission denied");
            assert_eq!(final_exit_code(&Err(e)), 1);
        }
        Ok(()) => panic!("expected a spawn error"),
    }
}

#[test]
fn exit_code_fidelity() {
    // Child exit 0 maps to success and exit code 0; any other exit, a
    // signal death, or an unobservable status maps to exit code 1.
    assert_eq!(outcome_of_wait(true, Some(0)), ExitOutcome::Success);
    assert_eq!(final_exit_code(&Ok(outcome_of_wait(true, Some(0)))), 0);
    assert_eq!(outcome_of_wait(true, Some(7)), ExitOutcome::Failure);
    assert_eq!(final_exit_code(&Ok(outcome_of_wait(true, Some(7)))), 1);
    assert_eq!(outcome_of_wait(true, Some(255)), ExitOutcome::Failure);
    assert_eq!(outcome_of_wait(true, None), ExitOutcome::Failure);
    assert_eq!(outcome_of_wait(false, None), ExitOutcome::Failure);
    assert_eq!(final_exit_code(&Ok(ExitOutcome::Failure)), 1);
}

#[test]
fn resolution_error_exits_one() {
    let e = RunError::Resolution(s("no such file: hello.py"));
    assert_eq!(e.message(), "no such file: hello.py");
    assert_eq!(final_exit_code(&Err(e)), 1);
}

#[test]
fn relay_marks_error_lines() {
    // Three stdout lines and two stderr lines: all five are forwarded
    // verbatim on their own channels, in order, and exactly the stderr
    // lines carry the visual mark; the child exiting 0 gives exit code 0.
    let out_lines = vec![s("one"), s("two"), s("three")];
    let err_lines = vec![s("oops"), s("bad")];

    let relayed_out = relay_channel(out_lines.clone(), StreamKind::Stdout);
    assert_eq!(relayed_out.len(), 3);
    for (i, line) in relayed_out.iter().enumerate() {
        assert_eq!(line.text, out_lines[i]);
        assert!(!line.marked);
    }

    let relayed_err = relay_channel(err_lines.clone(), StreamKind::Stderr);
    assert_eq!(relayed_err.len(), 2);
    for (i, line) in relayed_err.iter().enumerate() {
        assert_eq!(line.text, err_lines[i]);
        assert!(line.marked);
    }

    let outcome = outcome_of_wait(true, Some(0));
    assert_eq!(final_exit_code(&Ok(outcome)), 0);
}

#[test]
fn relay_line_keeps_text_verbatim() {
    let r = relay_line(s("hello"), StreamKind::Stdout);
    assert_eq!(r.text, "hello");
    assert!(!r.marked);
    let r = relay_line(s("hello"), StreamKind::Stderr);
    assert_eq!(r.text, "hello");
    assert!(r.marked);
}

#[test]
fn locator_trims_search_output() {
    assert_eq!(
        locate_result(true, &s("  /usr/bin/uv\n")),
        Some(s("/usr/bin/uv"))
    );
    assert_eq!(locate_result(false, &s("whatever")), None);
    assert!(native_lookup_needed(&None));
    assert!(!native_lookup_needed(&Some(s("/usr/bin/uv"))));
}

#[test]
fn exec_path_follows_platform_convention() {
    assert_eq!(get_python_exec_path(&s("/v"), false), "/v/bin/python");
    assert_eq!(
        get_python_exec_path(&s("/v"), true),
        "/v/Scripts/python.exe"
    );
    assert_eq!(join_path(&s("/proj"), "venv"), "/proj/venv");
}

#[test]
fn text_helpers_behave() {
    assert!(contains_sub("abcdef", "cde"));
    assert!(contains_sub("abc", ""));
    assert!(contains_sub("abc", "abc"));
    assert!(!contains_sub("abc", "abcd"));
    assert!(!contains_sub("abc", "x"));
    assert_eq!(find_char("a=b=c", '='), Some(1));
    assert_eq!(find_char("abc", '='), None);
    assert_eq!(trim_str(" \t x y \r\n"), "x y");
    assert_eq!(trim_str(""), "");
    assert_eq!(trim_str("   "), "");
}
