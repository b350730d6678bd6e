use vstd::prelude::*;

use crate::config::{parse_config, resolve, Config, ConfigModel};

verus! {

/// The exit code used when the child was ended by a signal and left no code.
pub const SIGNAL_EXIT_CODE: i32 = 1;

/// The character sequences of a list of strings.
pub open spec fn views(v: Seq<String>) -> Seq<Seq<char>> {
    v.map_values(|s: String| s@)
}

/// The command line that a child process is started with.
#[derive(Debug)]
pub struct ChildCommand {
    /// The executable to start.
    pub program: String,
    /// Its arguments, in order.
    pub args: Vec<String>,
}

impl View for ChildCommand {
    /// The whole command line, the program first.
    type V = Seq<Seq<char>>;

    open spec fn view(&self) -> Seq<Seq<char>> {
        seq![self.program@] + views(self.args@)
    }
}

/// The command line for a configuration: the executable, the script where
/// there is one, the tool token, then the caller's arguments in order.
pub open spec fn command_line(config: ConfigModel, tool: Seq<char>, args: Seq<Seq<char>>) -> Seq<
    Seq<char>,
> {
    match config {
        ConfigModel::Frozen(exe) => seq![exe, tool] + args,
        ConfigModel::PySource { exe, script } => seq![exe, script, tool] + args,
    }
}

/// The arguments a process received, without its own program name.
pub open spec fn caller_args(argv: Seq<Seq<char>>) -> Seq<Seq<char>> {
    if argv.len() == 0 {
        argv
    } else {
        argv.drop_first()
    }
}

/// Why a launch could not be carried through.
#[derive(Clone, Copy, Debug, PartialEq, Eq, Structural)]
pub enum LaunchError {
    /// The configuration record could not be read.
    ConfigUnavailable,
    /// The child process could not be started.
    SpawnFailed,
    /// Waiting for the child process failed.
    WaitFailed,
}

/// What became of an attempt to run the child process.
#[derive(Clone, Copy, Debug, PartialEq, Eq, Structural)]
pub enum ChildOutcome {
    /// The child exited with this code.
    Exited(i32),
    /// The child was ended by a signal and left no exit code.
    Signalled,
    /// The child could not be started.
    SpawnFailed,
    /// The child was started, but waiting for it failed.
    WaitFailed,
}

/// How this process ends after its child has ended.
#[derive(Clone, Copy, Debug, PartialEq, Eq, Structural)]
pub struct ExitStatus {
    /// The code to exit with.
    pub code: i32,
    /// Whether a diagnostic about signal termination is to be written first.
    pub report_signal: bool,
}

/// Assembles the child's command line from a configuration, the tool
/// token and the caller's arguments (without the caller's program name).
pub fn build_command(config: Config, tool: &str, args: Vec<String>) -> (r: ChildCommand)
    ensures
        r@ == command_line(config@, tool@, views(args@)),
{
    let ghost model = config@;
    let (program, mut prefix) = match config {
        Config::Frozen(exe) => (exe, Vec::new()),
        Config::PySource { exe, script } => {
            let mut v: Vec<String> = Vec::new();
            v.push(script);
            (exe, v)
        },
    };
    prefix.push(tool.to_owned());
    let ghost head = prefix@;
    let mut rest = args;
    prefix.append(&mut rest);
    assert(views(prefix@) =~= views(head) + views(args@));
    let r = ChildCommand { program, args: prefix };
    assert(r@ =~= command_line(model, tool@, views(args@)));
    r
}

/// Decides what to start: from the configuration record's text, if it could
/// be read, the tool token and the process's own argument list (its program
/// name first).
pub fn plan_launch(conf_text: Option<String>, tool: &str, argv: Vec<String>) -> (r: Result<
    ChildCommand,
    LaunchError,
>)
    ensures
        conf_text is None <==> r is Err,
        conf_text is None ==> r == Err::<ChildCommand, LaunchError>(LaunchError::ConfigUnavailable),
        conf_text matches Some(t) ==> r matches Ok(c) && c@ == command_line(
            resolve(t@),
            tool@,
            caller_args(views(argv@)),
        ),
{
    match conf_text {
        None => Err(LaunchError::ConfigUnavailable),
        Some(text) => {
            let config = parse_config(text);
            let mut args = argv;
            if args.len() > 0 {
                let ghost all = args@;
                args.remove(0);
                assert(views(args@) =~= views(all).drop_first());
            }
            Ok(build_command(config, tool, args))
        },
    }
}

/// Translates how the child ended into how this process ends: the child's
/// own code where it left one, the fallback code with a diagnostic where a
/// signal ended it, and an error where it could not be started or awaited.
pub fn exit_status_for(outcome: ChildOutcome) -> (r: Result<ExitStatus, LaunchError>)
    ensures
        outcome matches ChildOutcome::Exited(n) ==> r == Ok::<ExitStatus, LaunchError>(
            ExitStatus { code: n, report_signal: false },
        ),
        outcome is Signalled ==> r == Ok::<ExitStatus, LaunchError>(
            ExitStatus { code: SIGNAL_EXIT_CODE, report_signal: true },
        ),
        outcome is SpawnFailed ==> r == Err::<ExitStatus, LaunchError>(LaunchError::SpawnFailed),
        outcome is WaitFailed ==> r == Err::<ExitStatus, LaunchError>(LaunchError::WaitFailed),
{
    match outcome {
        ChildOutcome::Exited(code) => Ok(ExitStatus { code, report_signal: false }),
        ChildOutcome::Signalled => Ok(ExitStatus { code: SIGNAL_EXIT_CODE, report_signal: true }),
        ChildOutcome::SpawnFailed => Err(LaunchError::SpawnFailed),
        ChildOutcome::WaitFailed => Err(LaunchError::WaitFailed),
    }
}

} // verus!
