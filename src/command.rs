use vstd::prelude::*;
use crate::stdio::{get_stdio, stdio_result, InvalidStdio, StdioMode, StdioSpec, StdioTriple};
use crate::text::{ends_with, has_suffix, push_text};

verus! {

/// The operating-system family the command is built for.
#[derive(Clone, Copy, Debug, PartialEq, Eq, Structural)]
pub enum Platform {
    Posix,
    Windows,
}

/// The `shell` option.
pub enum ShellOption {
    Unset,
    /// `true` runs the platform's default shell; `false` runs no shell.
    Flag(bool),
    /// The path of the shell to run.
    Path(String),
}

/// One element of an argument list.
pub enum ArgValue {
    Text(String),
    /// An element that is not a string.
    NotText,
}

/// The value in the argument-list position of a call.
pub enum ArgsInput {
    Absent,
    List(Vec<ArgValue>),
    /// An options object given where the argument list would stand.
    Options(SpawnOptions),
    /// A bare string, which is refused.
    Text(String),
    /// Any other value, which is taken as no argument list.
    Other,
}

/// The options of a spawn request.
pub struct SpawnOptions {
    pub shell: ShellOption,
    pub cwd: Option<String>,
    pub uid: Option<u32>,
    pub gid: Option<u32>,
    /// When present, the child's whole environment.
    pub env: Option<Vec<(String, String)>>,
    pub stdio: StdioSpec,
    pub windows_verbatim_arguments: bool,
}

/// Everything needed to start the child process.
pub struct CommandDescriptor {
    pub program: String,
    pub args: Option<Vec<String>>,
    pub windows_verbatim_arguments: bool,
    pub cwd: Option<String>,
    pub uid: Option<u32>,
    pub gid: Option<u32>,
    pub env: Option<Vec<(String, String)>>,
    pub stdio: StdioTriple,
    /// Whether the child leads a process group of its own.
    pub process_group: bool,
}

/// Why a spawn request was refused before any process was started.
pub enum CommandError {
    ArgumentNotString,
    ArgsNotObject,
    InvalidStdio(InvalidStdio),
}

impl CommandError {
    /// The user-facing text of the error.
    pub fn message(&self) -> (r: String)
        ensures
            match self {
                CommandError::ArgumentNotString => r@ == "argument is not a string"@,
                CommandError::ArgsNotObject => r@
                    == "The \"args\" argument must be of type object"@,
                CommandError::InvalidStdio(e) => r@ == "Invalid stdio \""@ + e.token@
                    + "\". Expected one of: pipe, ignore, inherit"@,
            },
    {
        match self {
            CommandError::ArgumentNotString => String::from_str("argument is not a string"),
            CommandError::ArgsNotObject => String::from_str(
                "The \"args\" argument must be of type object",
            ),
            CommandError::InvalidStdio(e) => e.message(),
        }
    }
}

pub open spec fn views(v: Seq<String>) -> Seq<Seq<char>> {
    v.map_values(|s: String| s@)
}

pub open spec fn opt_views(o: Option<Vec<String>>) -> Option<Seq<Seq<char>>> {
    match o {
        Some(v) => Some(views(v@)),
        None => None,
    }
}

/// Each argument followed by one space.
pub open spec fn spaced(args: Seq<Seq<char>>) -> Seq<char>
    decreases args.len(),
{
    if args.len() == 0 {
        Seq::empty()
    } else {
        spaced(args.drop_last()) + args.last() + seq![' ']
    }
}

/// The command and its arguments joined into one shell command line.
pub open spec fn shell_line(cmd: Seq<char>, args: Option<Seq<Seq<char>>>) -> Seq<char> {
    cmd + seq![' '] + match args {
        Some(a) => spaced(a),
        None => Seq::empty(),
    }
}

/// Whether the shell is `cmd.exe` on Windows, which takes its own switches and quoting.
pub open spec fn uses_cmd_switches(platform: Platform, shell: Seq<char>) -> bool {
    platform == Platform::Windows && (has_suffix(shell, "cmd"@) || has_suffix(shell, "cmd.exe"@))
}

/// The arguments handed to a shell that runs `cmd` with `args`.
pub open spec fn shell_args(
    platform: Platform,
    shell: Seq<char>,
    cmd: Seq<char>,
    args: Option<Seq<Seq<char>>>,
) -> Seq<Seq<char>> {
    if uses_cmd_switches(platform, shell) {
        seq!["/d"@, "/s"@, "/c"@, seq!['"'] + shell_line(cmd, args) + seq!['"']]
    } else {
        seq!["-c"@, shell_line(cmd, args)]
    }
}

proof fn lemma_spaced_step(a: Seq<Seq<char>>, i: int)
    requires
        0 <= i < a.len(),
    ensures
        spaced(a.subrange(0, i + 1)) == spaced(a.subrange(0, i)) + a[i] + seq![' '],
{
    assert(a.subrange(0, i + 1).drop_last() == a.subrange(0, i));
}

/// Rewrites a command and its arguments into the arguments of a shell that runs them.
pub fn prepare_shell_args(
    shell: &str,
    windows_verbatim_arguments: &mut bool,
    cmd: String,
    command_args: Option<Vec<String>>,
    platform: Platform,
) -> (r: Vec<String>)
    ensures
        views(r@) == shell_args(platform, shell@, cmd@, opt_views(command_args)),
        *final(windows_verbatim_arguments) == (*old(windows_verbatim_arguments)
            || uses_cmd_switches(platform, shell@)),
{
    proof {
        reveal_strlit(" ");
        reveal_strlit("\"");
    }
    let is_windows = match platform {
        Platform::Windows => true,
        Platform::Posix => false,
    };
    let shell_is_cmd = is_windows && (ends_with(shell, "cmd") || ends_with(shell, "cmd.exe"));
    let mut string_args = cmd;
    if shell_is_cmd {
        *windows_verbatim_arguments = true;
        let mut quoted = String::from_str("\"");
        push_text(&mut quoted, string_args.as_str());
        string_args = quoted;
    }
    let ghost start = string_args@;
    push_text(&mut string_args, " ");
    if let Some(args) = &command_args {
        let ghost a = views(args@);
        let mut i: usize = 0;
        while i < args.len()
            invariant
                a == views(args@),
                i <= args.len(),
                string_args@ == start + seq![' '] + spaced(a.subrange(0, i as int)),
            decreases args.len() - i,
        {
            proof {
                reveal_strlit(" ");
                lemma_spaced_step(a, i as int);
                assert(a[i as int] == args@[i as int]@);
            }
            let ghost before = string_args@;
            push_text(&mut string_args, args[i].as_str());
            push_text(&mut string_args, " ");
            proof {
                assert(string_args@ =~= start + seq![' '] + spaced(a.subrange(0, i + 1)));
            }
            i = i + 1;
        }
        proof {
            assert(a.subrange(0, args.len() as int) == a);
        }
    }
    let ghost line = shell_line(cmd@, opt_views(command_args));
    proof {
        if shell_is_cmd {
            assert(start == seq!['"'] + cmd@);
        } else {
            assert(start == cmd@);
        }
        assert(string_args@ =~= start + seq![' '] + match opt_views(command_args) {
            Some(a) => spaced(a),
            None => Seq::empty(),
        });
    }
    if shell_is_cmd {
        push_text(&mut string_args, "\"");
        let r = vec![
            String::from_str("/d"),
            String::from_str("/s"),
            String::from_str("/c"),
            string_args,
        ];
        proof {
            assert(string_args@ =~= seq!['"'] + line + seq!['"']);
            assert(views(r@) =~= shell_args(platform, shell@, cmd@, opt_views(command_args)));
        }
        return r;
    }
    let r = vec![String::from_str("-c"), string_args];
    proof {
        assert(string_args@ =~= line);
        assert(views(r@) =~= shell_args(platform, shell@, cmd@, opt_views(command_args)));
    }
    r
}

/// The shell that the `shell` option selects, if any.
pub open spec fn shell_program(shell: ShellOption, platform: Platform) -> Option<Seq<char>> {
    match shell {
        ShellOption::Flag(true) => Some(default_shell(platform)),
        ShellOption::Path(p) => Some(p@),
        _ => None,
    }
}

pub open spec fn default_shell(platform: Platform) -> Seq<char> {
    match platform {
        Platform::Windows => "cmd.exe"@,
        Platform::Posix => "/bin/sh"@,
    }
}

/// Chooses the program to run: the command itself, or a shell that runs it, in which
/// case the arguments become the shell's.
pub fn get_cmd(
    shell: &ShellOption,
    command_args: &mut Option<Vec<String>>,
    windows_verbatim_arguments: &mut bool,
    cmd: String,
    platform: Platform,
) -> (r: String)
    ensures
        match shell_program(*shell, platform) {
            Some(sh) => {
                &&& r@ == sh
                &&& opt_views(*final(command_args)) == Some(
                    shell_args(platform, sh, cmd@, opt_views(*old(command_args))),
                )
                &&& *final(windows_verbatim_arguments) == (*old(windows_verbatim_arguments)
                    || uses_cmd_switches(platform, sh))
            },
            None => {
                &&& r@ == cmd@
                &&& *final(command_args) == *old(command_args)
                &&& *final(windows_verbatim_arguments) == *old(windows_verbatim_arguments)
            },
        },
{
    let program = match shell {
        ShellOption::Flag(true) => match platform {
            Platform::Windows => String::from_str("cmd.exe"),
            Platform::Posix => String::from_str("/bin/sh"),
        },
        ShellOption::Path(p) => p.clone(),
        _ => {
            return cmd;
        },
    };
    let taken = command_args.take();
    let shell_arguments = prepare_shell_args(
        program.as_str(),
        windows_verbatim_arguments,
        cmd,
        taken,
        platform,
    );
    *command_args = Some(shell_arguments);
    program
}

/// Whether every element of an argument list is a string.
pub open spec fn all_text(v: Seq<ArgValue>) -> bool {
    forall|i: int| 0 <= i < v.len() ==> v[i] is Text
}

pub open spec fn texts(v: Seq<ArgValue>) -> Seq<Seq<char>> {
    v.map_values(
        |a: ArgValue|
            match a {
                ArgValue::Text(s) => s@,
                ArgValue::NotText => Seq::empty(),
            },
    )
}

/// The argument list that the value in the argument position gives, or the error.
pub open spec fn command_args_result(args_0: ArgsInput) -> Result<
    Option<Seq<Seq<char>>>,
    CommandError,
> {
    match args_0 {
        ArgsInput::List(v) => if all_text(v@) {
            Ok(Some(texts(v@)))
        } else {
            Err(CommandError::ArgumentNotString)
        },
        ArgsInput::Text(_) => Err(CommandError::ArgsNotObject),
        _ => Ok(None),
    }
}

/// The options in force: an options object in the argument position replaces `opts`.
pub open spec fn chosen_options(args_0: ArgsInput, opts: Option<SpawnOptions>) -> Option<
    SpawnOptions,
> {
    match args_0 {
        ArgsInput::Options(o) => Some(o),
        _ => opts,
    }
}

/// The strings of an argument list, or `None` when one element is not a string.
fn collect_texts(v: &Vec<ArgValue>) -> (r: Option<Vec<String>>)
    ensures
        match r {
            Some(out) => all_text(v@) && views(out@) == texts(v@),
            None => !all_text(v@),
        },
{
    let mut out: Vec<String> = Vec::new();
    let mut i: usize = 0;
    while i < v.len()
        invariant
            i <= v.len(),
            out@.len() == i,
            all_text(v@.subrange(0, i as int)),
            views(out@) == texts(v@).subrange(0, i as int),
        decreases v.len() - i,
    {
        match &v[i] {
            ArgValue::Text(s) => {
                out.push(s.clone());
                proof {
                    assert(v@.subrange(0, i + 1) == v@.subrange(0, i as int).push(v@[i as int]));
                    assert(views(out@) =~= texts(v@).subrange(0, i + 1));
                }
            },
            ArgValue::NotText => {
                proof {
                    assert(!(v@[i as int] is Text));
                }
                return None;
            },
        }
        i = i + 1;
    }
    proof {
        assert(v@.subrange(0, v@.len() as int) == v@);
        assert(texts(v@).subrange(0, v@.len() as int) == texts(v@));
    }
    Some(out)
}

/// Reads the argument list from the argument position; an options object found there
/// becomes the options.
pub fn get_command_args(args_0: ArgsInput, opts: &mut Option<SpawnOptions>) -> (r: Result<
    Option<Vec<String>>,
    CommandError,
>)
    ensures
        match r {
            Ok(a) => command_args_result(args_0) == Ok::<
                Option<Seq<Seq<char>>>,
                CommandError,
            >(opt_views(a)),
            Err(e) => command_args_result(args_0) == Err::<Option<Seq<Seq<char>>>, CommandError>(
                e,
            ),
        },
        *final(opts) == chosen_options(args_0, *old(opts)),
{
    match args_0 {
        ArgsInput::List(v) => match collect_texts(&v) {
            Some(out) => Ok(Some(out)),
            None => Err(CommandError::ArgumentNotString),
        },
        ArgsInput::Options(o) => {
            *opts = Some(o);
            Ok(None)
        },
        ArgsInput::Text(_) => Err(CommandError::ArgsNotObject),
        _ => Ok(None),
    }
}

/// The fields of a descriptor for `cmd` with argument list `a`, options `o` and
/// stream modes `t`.
pub open spec fn describes(
    d: CommandDescriptor,
    platform: Platform,
    cmd: Seq<char>,
    a: Option<Seq<Seq<char>>>,
    o: Option<SpawnOptions>,
    t: StdioTriple,
) -> bool {
    let wva = match o {
        Some(o) => o.windows_verbatim_arguments,
        None => false,
    };
    let shell = match o {
        Some(o) => shell_program(o.shell, platform),
        None => None,
    };
    &&& match shell {
        Some(sh) => {
            &&& d.program@ == sh
            &&& opt_views(d.args) == Some(shell_args(platform, sh, cmd, a))
            &&& d.windows_verbatim_arguments == (wva || uses_cmd_switches(platform, sh))
        },
        None => {
            &&& d.program@ == cmd
            &&& opt_views(d.args) == a
            &&& d.windows_verbatim_arguments == wva
        },
    }
    &&& match o {
        Some(o) => d.cwd == o.cwd && d.uid == o.uid && d.gid == o.gid && d.env == o.env,
        None => d.cwd is None && d.uid is None && d.gid is None && d.env is None,
    }
    &&& d.stdio == t
    &&& d.process_group == (platform == Platform::Posix)
}

/// The stream modes for the options in force; a buffered invocation pipes all three.
pub open spec fn chosen_stdio(o: Option<SpawnOptions>, buffered: bool) -> Result<
    StdioTriple,
    Seq<char>,
> {
    match o {
        Some(o) => if buffered {
            stdio_result(StdioSpec::Unset)
        } else {
            stdio_result(o.stdio)
        },
        None => stdio_result(StdioSpec::Unset),
    }
}

/// Turns a command, the value in the argument position and the options into a
/// descriptor of the process to start, or refuses the request before any process runs.
pub fn build_command(
    platform: Platform,
    cmd: String,
    args_0: ArgsInput,
    opts: Option<SpawnOptions>,
    buffered: bool,
) -> (r: Result<CommandDescriptor, CommandError>)
    ensures
        match command_args_result(args_0) {
            Err(e) => r == Err::<CommandDescriptor, CommandError>(e),
            Ok(a) => {
                let o = chosen_options(args_0, opts);
                match chosen_stdio(o, buffered) {
                    Err(t) => match r {
                        Err(CommandError::InvalidStdio(e)) => e.token@ == t,
                        _ => false,
                    },
                    Ok(triple) => match r {
                        Ok(d) => describes(d, platform, cmd@, a, o, triple),
                        Err(_) => false,
                    },
                }
            },
        },
{
    let mut opts = opts;
    let mut command_args = get_command_args(args_0, &mut opts)?;
    let piped = StdioTriple {
        stdin: StdioMode::Piped,
        stdout: StdioMode::Piped,
        stderr: StdioMode::Piped,
    };
    match opts {
        None => Ok(
            CommandDescriptor {
                program: cmd,
                args: command_args,
                windows_verbatim_arguments: false,
                cwd: None,
                uid: None,
                gid: None,
                env: None,
                stdio: piped,
                process_group: platform == Platform::Posix,
            },
        ),
        Some(o) => {
            let mut wva = o.windows_verbatim_arguments;
            let program = get_cmd(&o.shell, &mut command_args, &mut wva, cmd, platform);
            let stdio = if buffered {
                piped
            } else {
                match get_stdio(&o.stdio) {
                    Ok(t) => t,
                    Err(e) => {
                        return Err(CommandError::InvalidStdio(e));
                    },
                }
            };
            let SpawnOptions { cwd, uid, gid, env, .. } = o;
            Ok(
                CommandDescriptor {
                    program,
                    args: command_args,
                    windows_verbatim_arguments: wva,
                    cwd,
                    uid,
                    gid,
                    env,
                    stdio,
                    process_group: platform == Platform::Posix,
                },
            )
        },
    }
}

/// The names of the variables of an environment.
pub open spec fn env_names(env: Seq<(String, String)>) -> Set<Seq<char>> {
    Set::new(|k: Seq<char>| exists|i: int| 0 <= i < env.len() && env[i].0@ == k)
}

/// The environment the child runs with: the supplied one in full, or the inherited one.
pub open spec fn environment_of(
    env: Option<Vec<(String, String)>>,
    inherited: Seq<(String, String)>,
) -> Seq<(String, String)> {
    match env {
        Some(m) => m@,
        None => inherited,
    }
}

/// The environment the child runs with: a supplied environment replaces the
/// inherited one instead of being merged into it.
pub fn child_environment(
    env: Option<Vec<(String, String)>>,
    inherited: Vec<(String, String)>,
) -> (r: Vec<(String, String)>)
    ensures
        r@ == environment_of(env, inherited@),
{
    match env {
        Some(m) => m,
        None => inherited,
    }
}

/// When the options supply an environment, a variable that it does not name is not
/// set in the child, whatever the parent's environment holds.
pub proof fn lemma_environment_isolation(
    d: CommandDescriptor,
    platform: Platform,
    cmd: Seq<char>,
    a: Option<Seq<Seq<char>>>,
    o: SpawnOptions,
    t: StdioTriple,
    inherited: Seq<(String, String)>,
    name: Seq<char>,
)
    requires
        describes(d, platform, cmd, a, Some(o), t),
        o.env is Some,
        !env_names(o.env.unwrap()@).contains(name),
    ensures
        !env_names(environment_of(d.env, inherited)).contains(name),
{
}

} // verus!
