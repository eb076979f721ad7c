//! What the tray runs, and how it judges what came of it.
//!
//! `scoop` is a PowerShell shim, so everything that is run here is a
//! `powershell.exe` with no console window, no inherited handles and a clean
//! environment. The spawning and the waiting are the host's; which program
//! it is, what is taken out of its environment, and what each poll of the
//! child means are decided here.
use crate::text::{decimal, texts, to_decimal};
use vstd::prelude::*;

verus! {

/// Longest a bucket refresh may take before the check gives up on it, in
/// seconds.
pub const BUCKET_REFRESH_TIMEOUT: u64 = 90;

/// How long to wait between two polls of a child, in milliseconds.
pub const POLL_INTERVAL_MILLIS: u64 = 200;

/// The nanoseconds of a second.
pub const NANOS_PER_SEC: u128 = 1_000_000_000;

/// The PowerShell invocation of `script`.
pub open spec fn powershell_argv(script: Seq<char>) -> Seq<Seq<char>> {
    seq![
        "powershell.exe"@,
        "-NoProfile"@,
        "-NonInteractive"@,
        "-ExecutionPolicy"@,
        "Bypass"@,
        "-Command"@,
        script,
    ]
}

/// `scoop` is a PowerShell shim, so every Scoop call is a `powershell.exe`
/// invocation; the flags keep it quiet, non-blocking and policy-proof.
pub fn powershell_command(script: &str) -> (r: Vec<String>)
    ensures
        texts(r@) == powershell_argv(script@),
{
    let argv = vec![
        "powershell.exe".to_owned(),
        "-NoProfile".to_owned(),
        "-NonInteractive".to_owned(),
        "-ExecutionPolicy".to_owned(),
        "Bypass".to_owned(),
        "-Command".to_owned(),
        script.to_owned(),
    ];
    assert(texts(argv@) =~= powershell_argv(script@));
    argv
}

/// `scoop update` with no app: refresh Scoop and every bucket (a `git pull`
/// each), so the manifest the check reads is the newest one.
pub fn refresh_buckets_command() -> (r: Vec<String>)
    ensures
        texts(r@) == powershell_argv("scoop update"@),
{
    powershell_command("scoop update")
}

/// What a child gets as one of its standard handles.
#[derive(Debug, Clone, Copy, PartialEq, Eq)]
pub enum Handle {
    /// Nothing: reads end at once, writes are dropped.
    Null,
    /// The parent's own.
    Inherited,
}

/// A child to start. Of its environment, which is the parent's, nothing is
/// changed but what is removed.
#[derive(Debug)]
pub struct QuietCommand {
    pub program: String,
    pub args: Vec<String>,
    /// The variables to take out of the child's environment.
    pub removed_env: Vec<String>,
    pub stdin: Handle,
    pub stdout: Handle,
    pub stderr: Handle,
    /// Whether a console window may open for the child.
    pub console_window: bool,
}

/// What a [`QuietCommand`] says, as text.
pub struct QuietCommandView {
    pub program: Seq<char>,
    pub args: Seq<Seq<char>>,
    pub removed_env: Seq<Seq<char>>,
    pub stdin: Handle,
    pub stdout: Handle,
    pub stderr: Handle,
    pub console_window: bool,
}

impl View for QuietCommand {
    type V = QuietCommandView;

    open spec fn view(&self) -> QuietCommandView {
        QuietCommandView {
            program: self.program@,
            args: texts(self.args@),
            removed_env: texts(self.removed_env@),
            stdin: self.stdin,
            stdout: self.stdout,
            stderr: self.stderr,
            console_window: self.console_window,
        }
    }
}

/// Environment variables a parent shell may leave behind that break the
/// Windows PowerShell Scoop runs in. `PSModulePath` is the one seen in the
/// wild: a tray started from PowerShell 7 inherits its module path, and
/// Windows PowerShell 5.1 then loads 7's `Microsoft.PowerShell.Utility`
/// and loses `Get-FileHash`, which Scoop needs to verify a download.
pub open spec fn scrubbed_env() -> Seq<Seq<char>> {
    seq!["PSModulePath"@]
}

/// The quiet command that runs `argv`; `None` when there is no program in it.
pub open spec fn quiet(argv: Seq<Seq<char>>) -> Option<QuietCommandView> {
    if argv.len() == 0 {
        None
    } else {
        Some(
            QuietCommandView {
                program: argv[0],
                args: argv.drop_first(),
                removed_env: scrubbed_env(),
                stdin: Handle::Null,
                stdout: Handle::Null,
                stderr: Handle::Null,
                console_window: false,
            },
        )
    }
}

/// `argv` as a child with no console window, no inherited handles and a
/// clean PowerShell environment.
pub fn quiet_command(argv: &[String]) -> (r: Result<QuietCommand, String>)
    ensures
        match r {
            Ok(command) => quiet(texts(argv@)) == Some(command@),
            Err(message) => quiet(texts(argv@)) is None && message@ == "empty command"@,
        },
{
    if argv.len() == 0 {
        return Err("empty command".to_owned());
    }
    let mut args: Vec<String> = Vec::new();
    let mut i: usize = 1;
    while i < argv.len()
        invariant
            1 <= i <= argv@.len(),
            texts(args@) =~= texts(argv@).subrange(1, i as int),
        decreases argv@.len() - i,
    {
        let ghost before = texts(args@);
        args.push(argv[i].clone());
        assert(texts(args@) =~= before.push(texts(argv@)[i as int]));
        i += 1;
    }
    let command = QuietCommand {
        program: argv[0].clone(),
        args,
        removed_env: vec!["PSModulePath".to_owned()],
        stdin: Handle::Null,
        stdout: Handle::Null,
        stderr: Handle::Null,
        console_window: false,
    };
    proof {
        assert(command@.args =~= texts(argv@).drop_first());
        assert(command@.removed_env =~= scrubbed_env());
    }
    Ok(command)
}

/// The program that `argv` names; empty when it names none.
pub open spec fn program_name(argv: Seq<Seq<char>>) -> Seq<char> {
    if argv.len() == 0 {
        seq![]
    } else {
        argv[0]
    }
}

/// The program that `argv` names, for messages.
fn program_of(argv: &[String]) -> (r: String)
    ensures
        r@ == program_name(texts(argv@)),
{
    if argv.len() == 0 {
        String::new()
    } else {
        argv[0].clone()
    }
}

/// What is said of a program that could not be started.
pub open spec fn not_started(program: Seq<char>, error: Seq<char>) -> Seq<char> {
    "could not start "@ + program + ": "@ + error
}

/// What is said of a program that failed.
pub open spec fn exited_with(program: Seq<char>, status: Seq<char>) -> Seq<char> {
    program + " exited with "@ + status
}

/// What is said of a program that was killed for taking too long.
pub open spec fn took_too_long(program: Seq<char>, timeout_nanos: nat) -> Seq<char> {
    program + " took longer than "@ + decimal(timeout_nanos / (NANOS_PER_SEC as nat)) + "s"@
}

/// What is said of a program that could not be waited for.
pub open spec fn not_awaited(program: Seq<char>, error: Seq<char>) -> Seq<char> {
    "could not wait for "@ + program + ": "@ + error
}

/// The message for an `argv` that could not be started because of `error`.
fn start_failure(argv: &[String], error: &str) -> (r: String)
    ensures
        r@ == not_started(program_name(texts(argv@)), error@),
{
    let program = program_of(argv);
    "could not start ".to_owned().concat(program.as_str()).concat(": ").concat(error)
}

/// Whether `r` is how starting `program` is reported when it came to
/// `started`.
pub open spec fn reports_start(
    program: Seq<char>,
    started: Result<(), String>,
    r: Result<(), String>,
) -> bool {
    match started {
        Ok(_) => r is Ok,
        Err(error) => r matches Err(message) && message@ == not_started(program, error@),
    }
}

/// What came of starting a detached child.
pub fn start_outcome(argv: &[String], started: Result<(), String>) -> (r: Result<(), String>)
    ensures
        reports_start(program_name(texts(argv@)), started, r),
{
    match started {
        Ok(()) => Ok(()),
        Err(error) => Err(start_failure(argv, error.as_str())),
    }
}

/// Whether `spawn` may answer `started` when it is handed the command that
/// says `command`.
pub open spec fn spawns<F: FnOnce(&QuietCommand) -> Result<(), String>>(
    spawn: F,
    command: QuietCommandView,
    started: Result<(), String>,
) -> bool {
    exists|c: &QuietCommand| #[trigger]
        c.view() == command && call_ensures(spawn, (c,), started)
}

/// Start `argv` detached (no window, no handles) with `spawn` and return at
/// once; the child outlives this process. It is started once, nothing else
/// is, and nothing at all when there is no program in `argv`.
pub fn spawn_detached<F: FnOnce(&QuietCommand) -> Result<(), String>>(
    argv: &[String],
    spawn: F,
) -> (r: Result<(), String>)
    requires
        forall|command: &QuietCommand|
            quiet(texts(argv@)) == Some(#[trigger] command.view()) ==> call_requires(
                spawn,
                (command,),
            ),
    ensures
        match quiet(texts(argv@)) {
            Some(command) => exists|started: Result<(), String>| #[trigger]
                spawns(spawn, command, started) && reports_start(command.program, started, r),
            None => r matches Err(message) && message@ == "empty command"@,
        },
{
    let command = match quiet_command(argv) {
        Ok(command) => command,
        Err(message) => return Err(message),
    };
    let started = spawn(&command);
    assert(spawns(spawn, command@, started));
    assert(quiet(texts(argv@))->0 == command@);
    start_outcome(argv, started)
}

/// What one look at a running child found.
#[derive(Debug)]
pub enum Poll {
    /// The child is gone, with this status.
    Exited { success: bool, status: String },
    /// The child still runs, this long after it was started.
    Running { elapsed_nanos: u128 },
    /// The child could not be looked at.
    Failed { error: String },
}

/// What to do after a look at a running child.
#[derive(Debug)]
pub enum Step {
    /// The run is over, with this outcome.
    Finish(Result<(), String>),
    /// Kill the child and wait for it to be gone; the run is over and failed.
    Kill(String),
    /// Look again after this many milliseconds.
    Sleep(u64),
}

/// What a [`Step`] says, as text.
pub enum StepView {
    Succeed,
    Fail(Seq<char>),
    Kill(Seq<char>),
    Sleep(u64),
}

impl View for Step {
    type V = StepView;

    open spec fn view(&self) -> StepView {
        match self {
            Step::Finish(Ok(_)) => StepView::Succeed,
            Step::Finish(Err(message)) => StepView::Fail(message@),
            Step::Kill(message) => StepView::Kill(message@),
            Step::Sleep(millis) => StepView::Sleep(*millis),
        }
    }
}

/// What a look at a running child calls for.
pub open spec fn step_after(program: Seq<char>, timeout_nanos: u128, poll: Poll) -> StepView {
    match poll {
        Poll::Exited { success, status } => if success {
            StepView::Succeed
        } else {
            StepView::Fail(exited_with(program, status@))
        },
        Poll::Running { elapsed_nanos } => if elapsed_nanos >= timeout_nanos {
            StepView::Kill(took_too_long(program, timeout_nanos as nat))
        } else {
            StepView::Sleep(POLL_INTERVAL_MILLIS)
        },
        Poll::Failed { error } => StepView::Fail(not_awaited(program, error@)),
    }
}

/// Judges one look at the child that runs `program` under `timeout_nanos`.
pub fn judge(program: &str, timeout_nanos: u128, poll: Poll) -> (r: Step)
    ensures
        r@ == step_after(program@, timeout_nanos, poll),
{
    match poll {
        Poll::Exited { success, status } => if success {
            Step::Finish(Ok(()))
        } else {
            Step::Finish(
                Err(program.to_owned().concat(" exited with ").concat(status.as_str())),
            )
        },
        Poll::Running { elapsed_nanos } => if elapsed_nanos >= timeout_nanos {
            let secs = to_decimal(timeout_nanos / NANOS_PER_SEC);
            Step::Kill(
                program.to_owned().concat(" took longer than ").concat(secs.as_str()).concat("s"),
            )
        } else {
            Step::Sleep(POLL_INTERVAL_MILLIS)
        },
        Poll::Failed { error } => Step::Finish(
            Err("could not wait for ".to_owned().concat(program).concat(": ").concat(error.as_str())),
        ),
    }
}

} // verus!
