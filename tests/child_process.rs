use llrt_child_process::command::{build_command, ArgValue, ArgsInput, Platform, ShellOption, SpawnOptions};
use llrt_child_process::exec::{exec_report, spawn_failure, SpawnFailure};
use llrt_child_process::lifecycle::{Lifecycle, Notice, Pipe};
use llrt_child_process::stdio::{StdioMode, StdioSpec};
use llrt_child_process::supervisor::{ExitOutcome, Supervisor, SupervisorAction, SupervisorEvent};

fn args(list: &[&str]) -> ArgsInput {
    ArgsInput::List(list.iter().map(|s| ArgValue::Text(s.to_string())).collect())
}

fn shell_options(shell: ShellOption) -> SpawnOptions {
    SpawnOptions {
        shell,
        cwd: None,
        uid: None,
        gid: None,
        env: None,
        stdio: StdioSpec::Unset,
        windows_verbatim_arguments: false,
    }
}

fn exited(code: i32) -> ExitOutcome {
    let mut sup = Supervisor::new(Some(42), Platform::Posix);
    match sup.step(SupervisorEvent::ChildExited { code: Some(code), signal: None }) {
        SupervisorAction::Finish(o) => o,
        _ => panic!("the child's exit must finish supervision"),
    }
}

/// Runs a lifecycle over one stdout chunk and returns the notices and the data seen.
fn run_streaming(out: &[u8]) -> (Vec<Notice>, String) {
    let mut life = Lifecycle::new(true, true, false);
    let data = String::from_utf8(out.to_vec()).unwrap();
    life.record_chunk(Pipe::Stdout, out.to_vec());
    let mut notices = life.process_finished(exited(0));
    notices.extend(life.pipe_closed(Pipe::Stderr));
    notices.extend(life.pipe_closed(Pipe::Stdout));
    (notices, data)
}

#[test]
fn test_spawn() {
    let d = build_command(Platform::Posix, "echo".to_string(), args(&["hello"]), None, false)
        .ok()
        .unwrap();
    assert_eq!(d.program, "echo");
    assert_eq!(d.args, Some(vec!["hello".to_string()]));
    assert_eq!(d.stdio.stdout, StdioMode::Piped);
    let (notices, data) = run_streaming(b"hello\n");
    let o = exited(0);
    assert_eq!(notices, vec![Notice::Exit(o), Notice::EndStdin, Notice::Close(o)]);
    let message = data.trim();
    assert_eq!(message, "hello");
}

#[test]
fn test_exec_file() {
    let d = build_command(Platform::Posix, "echo".to_string(), args(&["hello"]), None, true)
        .ok()
        .unwrap();
    let mut life = Lifecycle::new(true, true, true);
    life.record_chunk(Pipe::Stdout, b"hel".to_vec());
    life.record_chunk(Pipe::Stdout, b"lo\n".to_vec());
    life.pipe_closed(Pipe::Stdout);
    life.pipe_closed(Pipe::Stderr);
    let notices = life.process_finished(exited(0));
    assert_eq!(notices.len(), 3);
    let report = exec_report(
        &d.program,
        &d.args,
        &exited(0),
        life.stdout().clone(),
        life.stderr().clone(),
    );
    assert!(report.error.is_none());
    assert_eq!(report.stdout, b"hello\n".to_vec());
    assert_eq!(report.stderr, Vec::<u8>::new());
    let message = String::from_utf8(report.stdout).unwrap();
    assert_eq!(message.trim(), "hello");
}

#[test]
fn test_spawn_shell() {
    let d = build_command(
        Platform::Posix,
        "echo".to_string(),
        args(&["hello"]),
        Some(shell_options(ShellOption::Flag(true))),
        false,
    )
    .ok()
    .unwrap();
    assert_eq!(d.program, "/bin/sh");
    assert_eq!(d.args, Some(vec!["-c".to_string(), "echo hello ".to_string()]));
    let (notices, data) = run_streaming(b"hello\n");
    assert_eq!(notices.len(), 3);
    assert_eq!(data.trim(), "hello");
}

#[test]
fn exec_file_missing_path_reports_error() {
    let d = build_command(Platform::Posix, "ls".to_string(), args(&["hello-missing"]), None, true)
        .ok()
        .unwrap();
    let mut life = Lifecycle::new(true, true, true);
    let err = b"ls: cannot access 'hello-missing': No such file or directory\n".to_vec();
    life.record_chunk(Pipe::Stderr, err.clone());
    life.pipe_closed(Pipe::Stderr);
    life.pipe_closed(Pipe::Stdout);
    life.process_finished(exited(2));
    let report = exec_report(&d.program, &d.args, &exited(2), life.stdout().clone(), life.stderr().clone());
    let e = report.error.unwrap();
    assert_eq!(e.code, 2);
    assert_eq!(e.cmd, "ls hello-missing");
    assert_eq!(e.message, "error: Error: Command failed: ls argsls hello-missing");
    assert!(report.stdout.is_empty());
    assert_eq!(report.stderr, err);
}

#[test]
fn exec_file_nonzero_exit_with_empty_stderr_is_error() {
    let report = exec_report("false", &None, &exited(1), Vec::new(), Vec::new());
    let e = report.error.unwrap();
    assert_eq!(e.code, 1);
    assert_eq!(e.cmd, "false ");
}

#[test]
fn exec_file_empty_output_succeeds() {
    let report = exec_report("true", &Some(vec![]), &exited(0), Vec::new(), Vec::new());
    assert!(report.error.is_none());
    assert!(report.stdout.is_empty());
    assert!(report.stderr.is_empty());
}

#[test]
fn exec_file_stderr_alone_is_error() {
    let report = exec_report("sh", &Some(vec!["-c".to_string(), "x".to_string()]), &exited(0), b"out".to_vec(), b"warn".to_vec());
    assert_eq!(report.error.unwrap().cmd, "sh -c x");
    assert!(report.stdout.is_empty());
    assert_eq!(report.stderr, b"warn".to_vec());
}

#[test]
fn spawn_of_missing_program_without_listener_raises() {
    match spawn_failure("no-such-program", "No such file or directory (os error 2)", false, false) {
        SpawnFailure::Raise(m) => assert_eq!(
            m,
            "Child process failed to spawn \"no-such-program\". No such file or directory (os error 2)"
        ),
        _ => panic!("expected the failure to be raised"),
    }
}

#[test]
fn spawn_failure_with_listener_is_emitted() {
    match spawn_failure("x", "gone", true, false) {
        SpawnFailure::Report { message, invoke_callback } => {
            assert_eq!(message, "Child process failed to spawn \"x\". gone");
            assert!(!invoke_callback);
        },
        _ => panic!("expected an error event"),
    }
}

#[test]
fn spawn_failure_in_buffered_mode_calls_back() {
    match spawn_failure("x", "gone", false, true) {
        SpawnFailure::Report { invoke_callback, .. } => assert!(invoke_callback),
        _ => panic!("expected the callback to be called"),
    }
}

#[test]
fn identical_runs_give_identical_reports() {
    let run = |chunks: Vec<Vec<u8>>| {
        let mut life = Lifecycle::new(true, true, true);
        for c in chunks {
            life.record_chunk(Pipe::Stdout, c);
        }
        life.pipe_closed(Pipe::Stdout);
        life.pipe_closed(Pipe::Stderr);
        life.process_finished(exited(0));
        let r = exec_report("echo", &None, &exited(0), life.stdout().clone(), life.stderr().clone());
        (r.error.is_none(), r.stdout, r.stderr)
    };
    assert_eq!(
        run(vec![b"hello\n".to_vec()]),
        run(vec![b"he".to_vec(), b"llo".to_vec(), b"\n".to_vec()])
    );
}
