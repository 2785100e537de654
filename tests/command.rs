use llrt_child_process::command::{
    build_command, child_environment, get_cmd, get_command_args, prepare_shell_args, ArgValue,
    ArgsInput, CommandError, Platform, ShellOption, SpawnOptions,
};
use llrt_child_process::stdio::{get_stdio, str_to_stdio, StdioMode, StdioSlot, StdioSpec};

fn options() -> SpawnOptions {
    SpawnOptions {
        shell: ShellOption::Unset,
        cwd: None,
        uid: None,
        gid: None,
        env: None,
        stdio: StdioSpec::Unset,
        windows_verbatim_arguments: false,
    }
}

fn strings(v: &[&str]) -> Vec<String> {
    v.iter().map(|s| s.to_string()).collect()
}

#[test]
fn shell_args_on_posix_join_command_and_arguments() {
    let mut verbatim = false;
    let r = prepare_shell_args("/bin/sh", &mut verbatim, "ls".to_string(), Some(strings(&["-l", "/tmp"])), Platform::Posix);
    assert_eq!(r, strings(&["-c", "ls -l /tmp "]));
    assert!(!verbatim);
}

#[test]
fn shell_args_without_arguments_keep_trailing_space() {
    let mut verbatim = false;
    let r = prepare_shell_args("/bin/sh", &mut verbatim, "pwd".to_string(), None, Platform::Posix);
    assert_eq!(r, strings(&["-c", "pwd "]));
}

#[test]
fn shell_args_for_cmd_on_windows_are_quoted() {
    let mut verbatim = false;
    let r = prepare_shell_args("C:\\Windows\\cmd.exe", &mut verbatim, "dir".to_string(), Some(strings(&["a"])), Platform::Windows);
    assert_eq!(r, strings(&["/d", "/s", "/c", "\"dir a \""]));
    assert!(verbatim);
}

#[test]
fn shell_args_for_other_shell_on_windows_use_dash_c() {
    let mut verbatim = false;
    let r = prepare_shell_args("bash", &mut verbatim, "dir".to_string(), None, Platform::Windows);
    assert_eq!(r, strings(&["-c", "dir "]));
    assert!(!verbatim);
}

#[test]
fn shell_path_option_selects_that_shell() {
    let mut a = Some(strings(&["x"]));
    let mut verbatim = false;
    let p = get_cmd(&ShellOption::Path("/bin/bash".to_string()), &mut a, &mut verbatim, "echo".to_string(), Platform::Posix);
    assert_eq!(p, "/bin/bash");
    assert_eq!(a, Some(strings(&["-c", "echo x "])));
}

#[test]
fn shell_false_runs_command_directly() {
    let mut a = Some(strings(&["x"]));
    let mut verbatim = false;
    let p = get_cmd(&ShellOption::Flag(false), &mut a, &mut verbatim, "echo".to_string(), Platform::Posix);
    assert_eq!(p, "echo");
    assert_eq!(a, Some(strings(&["x"])));
}

#[test]
fn default_shell_on_windows_is_cmd() {
    let mut a = None;
    let mut verbatim = false;
    let p = get_cmd(&ShellOption::Flag(true), &mut a, &mut verbatim, "ver".to_string(), Platform::Windows);
    assert_eq!(p, "cmd.exe");
    assert_eq!(a, Some(strings(&["/d", "/s", "/c", "\"ver \""])));
    assert!(verbatim);
}

#[test]
fn non_string_argument_is_refused() {
    let mut opts = None;
    let r = get_command_args(ArgsInput::List(vec![ArgValue::Text("a".to_string()), ArgValue::NotText]), &mut opts);
    let e = r.err().unwrap();
    assert!(matches!(e, CommandError::ArgumentNotString));
    assert_eq!(e.message(), "argument is not a string");
}

#[test]
fn bare_string_in_argument_position_is_refused() {
    let r = build_command(Platform::Posix, "ls".to_string(), ArgsInput::Text("-l".to_string()), None, false);
    let e = r.err().unwrap();
    assert!(matches!(e, CommandError::ArgsNotObject));
    assert_eq!(e.message(), "The \"args\" argument must be of type object");
}

#[test]
fn options_in_argument_position_are_used() {
    let mut o = options();
    o.cwd = Some("/tmp".to_string());
    o.uid = Some(7);
    o.gid = Some(8);
    let d = build_command(Platform::Posix, "ls".to_string(), ArgsInput::Options(o), Some(options()), false)
        .ok()
        .unwrap();
    assert_eq!(d.args, None);
    assert_eq!(d.cwd, Some("/tmp".to_string()));
    assert_eq!(d.uid, Some(7));
    assert_eq!(d.gid, Some(8));
    assert!(d.process_group);
}

#[test]
fn other_value_in_argument_position_means_no_arguments() {
    let d = build_command(Platform::Windows, "ls".to_string(), ArgsInput::Other, None, false).ok().unwrap();
    assert_eq!(d.args, None);
    assert!(!d.process_group);
}

#[test]
fn stdio_tokens_map_to_modes() {
    assert_eq!(str_to_stdio("pipe").ok(), Some(StdioMode::Piped));
    assert_eq!(str_to_stdio("ignore").ok(), Some(StdioMode::Ignored));
    assert_eq!(str_to_stdio("inherit").ok(), Some(StdioMode::Inherited));
}

#[test]
fn unknown_stdio_token_is_refused() {
    let e = str_to_stdio("pipes").err().unwrap();
    assert_eq!(e.message(), "Invalid stdio \"pipes\". Expected one of: pipe, ignore, inherit");
}

#[test]
fn single_stdio_token_applies_to_all_streams() {
    let t = get_stdio(&StdioSpec::Single("ignore".to_string())).ok().unwrap();
    assert_eq!((t.stdin, t.stdout, t.stderr), (StdioMode::Ignored, StdioMode::Ignored, StdioMode::Ignored));
}

#[test]
fn stdio_list_sets_each_stream_and_ignores_extra_entries() {
    let spec = StdioSpec::Slots(vec![
        StdioSlot::Token("inherit".to_string()),
        StdioSlot::Descriptor(5),
        StdioSlot::Unset,
        StdioSlot::Token("bogus".to_string()),
    ]);
    let t = get_stdio(&spec).ok().unwrap();
    assert_eq!(t.stdin, StdioMode::Inherited);
    assert_eq!(t.stdout, StdioMode::RawDescriptor(5));
    assert_eq!(t.stderr, StdioMode::Piped);
}

#[test]
fn short_stdio_list_pipes_missing_streams() {
    let t = get_stdio(&StdioSpec::Slots(vec![StdioSlot::Token("ignore".to_string())])).ok().unwrap();
    assert_eq!((t.stdin, t.stdout, t.stderr), (StdioMode::Ignored, StdioMode::Piped, StdioMode::Piped));
}

#[test]
fn invalid_stdio_option_refuses_spawn() {
    let mut o = options();
    o.stdio = StdioSpec::Slots(vec![StdioSlot::Unset, StdioSlot::Token("file".to_string())]);
    let e = build_command(Platform::Posix, "ls".to_string(), ArgsInput::Absent, Some(o), false).err().unwrap();
    match e {
        CommandError::InvalidStdio(i) => assert_eq!(i.token, "file"),
        _ => panic!("expected a stdio error"),
    }
}

#[test]
fn buffered_invocation_pipes_all_streams() {
    let mut o = options();
    o.stdio = StdioSpec::Single("file".to_string());
    let d = build_command(Platform::Posix, "ls".to_string(), ArgsInput::Absent, Some(o), true).ok().unwrap();
    assert_eq!((d.stdio.stdin, d.stdio.stdout, d.stdio.stderr), (StdioMode::Piped, StdioMode::Piped, StdioMode::Piped));
}

#[test]
fn supplied_environment_replaces_inherited_one() {
    let inherited = vec![("HOME".to_string(), "/root".to_string()), ("PATH".to_string(), "/bin".to_string())];
    let mut o = options();
    o.env = Some(vec![("FOO".to_string(), "bar".to_string())]);
    let d = build_command(Platform::Posix, "env".to_string(), ArgsInput::Absent, Some(o), false).ok().unwrap();
    let env = child_environment(d.env, inherited.clone());
    assert_eq!(env, vec![("FOO".to_string(), "bar".to_string())]);
    assert!(!env.iter().any(|(k, _)| k == "HOME"));
    assert_eq!(child_environment(None, inherited.clone()), inherited);
}

#[test]
fn windows_verbatim_option_is_kept() {
    let mut o = options();
    o.windows_verbatim_arguments = true;
    let d = build_command(Platform::Windows, "a".to_string(), ArgsInput::Absent, Some(o), false).ok().unwrap();
    assert!(d.windows_verbatim_arguments);
}
