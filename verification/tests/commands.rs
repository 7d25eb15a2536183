use webgate::command::CommandOutcome;
use webgate::command::ExecPlan;
use webgate::command::Report;
use webgate::command::command_environment;
use webgate::command::command_trace;
use webgate::command::execute_plan;
use webgate::command::execute_report;
use webgate::command::prepare_command;
use webgate::command::qualify_command;

#[test]
fn qualifies_bare_command() {
    assert_eq!(qualify_command("ls"), "/bin/ls".to_string());
    assert_eq!(qualify_command("sync"), "/bin/sync".to_string());
}

#[test]
fn rooted_command_left_unqualified() {
    assert_eq!(
        qualify_command("/usr/bin/ui/content_shell"),
        "/usr/bin/ui/content_shell".to_string()
    );
}

#[test]
fn prepare_splits_program_and_args() {
    let p = prepare_command("echo hello").expect("tokens expected");
    assert_eq!(p.program, "/bin/echo".to_string());
    assert_eq!(p.args, vec!["hello".to_string()]);
}

#[test]
fn prepare_empty_line_is_none() {
    assert!(prepare_command("").is_none());
    assert!(prepare_command("   ").is_none());
}

#[test]
fn environment_holds_fixed_pairs() {
    let env = command_environment();
    let expected = vec![
        ("EGL_DEBUG", "1"),
        ("EGL_LOG_LEVEL", "debug"),
        ("DRI_DEVICE", "/dev/dri/card0"),
        ("LIBGL_ALWAYS_SOFTWARE", "0"),
        ("LD_LIBRARY_PATH", "/lib:/usr/lib:/lib64:/usr/lib/x86_64-linux-gnu"),
        ("PATH", "/bin:/usr/bin"),
    ];
    assert_eq!(env.len(), expected.len());
    for (pair, (name, value)) in env.iter().zip(expected.iter()) {
        assert_eq!(pair.0, name.to_string());
        assert_eq!(pair.1, value.to_string());
    }
}

#[test]
fn trace_quotes_each_argument() {
    let p = prepare_command("cp \"a b\" c").expect("tokens expected");
    assert_eq!(command_trace(&p), "$ /bin/cp \"a b\" \"c\"".to_string());
}

#[test]
fn plan_for_empty_line_spawns_nothing() {
    match execute_plan("  ") {
        ExecPlan::Empty => {},
        ExecPlan::Spawn { .. } => panic!("an empty line must spawn nothing"),
    }
}

#[test]
fn plan_qualifies_and_traces() {
    match execute_plan("mount -t proc none /proc") {
        ExecPlan::Empty => panic!("tokens expected"),
        ExecPlan::Spawn { command, trace } => {
            assert_eq!(command.program, "/bin/mount".to_string());
            assert_eq!(command.args, vec![
                "-t".to_string(),
                "proc".to_string(),
                "none".to_string(),
                "/proc".to_string(),
            ]);
            assert_eq!(trace, "$ /bin/mount \"-t\" \"proc\" \"none\" \"/proc\"".to_string());
        },
    }
}

#[test]
fn report_silent_on_success() {
    let r = execute_report(&CommandOutcome::Exited { success: true, code: Some(0) });
    assert!(r.is_empty());
}

#[test]
fn report_names_exit_code() {
    let r = execute_report(&CommandOutcome::Exited { success: false, code: Some(3) });
    assert_eq!(r, vec![Report::CommandFailed { code: Some(3) }]);
    let r2 = execute_report(&CommandOutcome::Exited { success: false, code: None });
    assert_eq!(r2, vec![Report::CommandFailed { code: None }]);
}

#[test]
fn report_names_spawn_error() {
    let r = execute_report(&CommandOutcome::SpawnFailed { error: "no such file".to_string() });
    assert_eq!(r, vec![Report::SpawnFailed { error: "no such file".to_string() }]);
}
