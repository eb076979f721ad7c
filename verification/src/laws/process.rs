//! What is run and what is said of it, in terms of the arguments alone.
use crate::process::{
    judge, powershell_command, quiet, quiet_command, refresh_buckets_command, reports_start,
    spawn_detached, spawns, start_outcome, Handle, Poll, QuietCommand, Step,
};
use crate::text::{decimal, texts};
use vstd::prelude::*;

verus! {

/// Whatever the script, PowerShell is invoked with the same six texts, the
/// last of them `-Command`, and the script after them.
pub proof fn scripts_are_run_as_commands(script: &str, r: Vec<String>)
    requires
        call_ensures(powershell_command, (script,), r),
    ensures
        r@.len() == 7,
        r@[0]@ == "powershell.exe"@,
        r@[1]@ == "-NoProfile"@,
        r@[2]@ == "-NonInteractive"@,
        r@[3]@ == "-ExecutionPolicy"@,
        r@[4]@ == "Bypass"@,
        r@[5]@ == "-Command"@,
        r@[6]@ == script@,
{
    each_text_is_a_view(r@);
}

/// Two scripts are invoked alike but for the script itself.
pub proof fn invocations_differ_in_the_script_only(
    script: &str,
    other: &str,
    r: Vec<String>,
    other_r: Vec<String>,
)
    requires
        call_ensures(powershell_command, (script,), r),
        call_ensures(powershell_command, (other,), other_r),
    ensures
        r@.len() == other_r@.len(),
        forall|i: int| 0 <= i < r@.len() - 1 ==> (#[trigger] r@[i])@ == other_r@[i]@,
        r@.last()@ == script@,
        other_r@.last()@ == other@,
{
    scripts_are_run_as_commands(script, r);
    scripts_are_run_as_commands(other, other_r);
}

/// Refreshing the buckets is the PowerShell invocation of `scoop update`.
pub proof fn refreshing_is_a_scoop_update(script: &str, r: Vec<String>, invoked: Vec<String>)
    requires
        call_ensures(refresh_buckets_command, (), r),
        call_ensures(powershell_command, (script,), invoked),
        script@ == "scoop update"@,
    ensures
        r@.len() == invoked@.len() == 7,
        forall|i: int| 0 <= i < 7 ==> (#[trigger] r@[i])@ == invoked@[i]@,
        r@[6]@ == "scoop update"@,
{
    each_text_is_a_view(r@);
    each_text_is_a_view(invoked@);
}

/// The texts of a list are those of its strings.
proof fn each_text_is_a_view(list: Seq<String>)
    ensures
        texts(list).len() == list.len(),
        forall|i: int| 0 <= i < list.len() ==> #[trigger] texts(list)[i] == list[i]@,
        forall|i: int| 0 <= i < list.len() ==> texts(list)[i] == (#[trigger] list[i])@,
{
}

/// A command runs the first text of `argv` with the rest as its arguments,
/// in order, with no handles, no window, and nothing but `PSModulePath` taken
/// out of its environment. Only an empty `argv` is refused.
pub proof fn commands_run_their_argv(argv: &[String], r: Result<QuietCommand, String>)
    requires
        call_ensures(quiet_command, (argv,), r),
    ensures
        r is Ok <==> argv@.len() > 0,
        r matches Ok(command) ==> {
            &&& command.program@ == argv@[0]@
            &&& command.args@.len() == argv@.len() - 1
            &&& forall|i: int|
                0 <= i < command.args@.len() ==> (#[trigger] command.args@[i])@ == argv@[i + 1]@
            &&& command.removed_env@.len() == 1
            &&& command.removed_env@[0]@ == "PSModulePath"@
            &&& command.stdin == Handle::Null
            &&& command.stdout == Handle::Null
            &&& command.stderr == Handle::Null
            &&& !command.console_window
        },
        r matches Err(message) ==> message@ == "empty command"@,
{
    each_text_is_a_view(argv@);
    if let Ok(command) = r {
        runs(argv@, command);
    }
}

/// A quiet command with the view of `argv` runs `argv`.
proof fn runs(argv: Seq<String>, command: QuietCommand)
    requires
        quiet(texts(argv)) == Some(command@),
    ensures
        argv.len() > 0,
        command.program@ == argv[0]@,
        command.args@.len() == argv.len() - 1,
        forall|i: int|
            0 <= i < command.args@.len() ==> (#[trigger] command.args@[i])@ == argv[i + 1]@,
        command.removed_env@.len() == 1,
        command.removed_env@[0]@ == "PSModulePath"@,
        command.stdin == Handle::Null,
        command.stdout == Handle::Null,
        command.stderr == Handle::Null,
        !command.console_window,
{
    each_text_is_a_view(argv);
    each_text_is_a_view(command.args@);
    each_text_is_a_view(command.removed_env@);
    assert forall|i: int| 0 <= i < command.args@.len() implies (#[trigger] command.args@[i])@
        == argv[i + 1]@ by {
        assert(texts(command.args@)[i] == texts(argv)[i + 1]);
    }
}

/// A start that worked is reported as such. One that did not is reported
/// with the program, which is the first text of `argv` if there is one, and
/// with the error.
pub proof fn starts_are_reported(
    argv: &[String],
    started: Result<(), String>,
    r: Result<(), String>,
)
    requires
        call_ensures(start_outcome, (argv, started), r),
    ensures
        started is Ok <==> r is Ok,
        started matches Err(error) ==> (r matches Err(message) && message@ == (if argv@.len() == 0 {
            "could not start : "@ + error@
        } else {
            "could not start "@ + argv@[0]@ + ": "@ + error@
        })),
{
    each_text_is_a_view(argv@);
    reveal_strlit("could not start ");
    reveal_strlit(": ");
    reveal_strlit("could not start : ");
    assert("could not start "@ + Seq::<char>::empty() + ": "@ =~= "could not start : "@);
}

/// A detached start hands the spawner one command that runs `argv` quietly,
/// and reports what the spawner answers: success as success, an error with
/// the program and the error. An empty `argv` is refused.
pub proof fn detached_starts_run_their_argv<F: FnOnce(&QuietCommand) -> Result<(), String>>(
    argv: &[String],
    spawn: F,
    r: Result<(), String>,
)
    requires
        call_ensures(spawn_detached::<F>, (argv, spawn), r),
    ensures
        argv@.len() == 0 ==> (r matches Err(message) && message@ == "empty command"@),
        argv@.len() > 0 ==> exists|command: &QuietCommand, started: Result<(), String>|
            {
                &&& #[trigger] call_ensures(spawn, (command,), started)
                &&& command.program@ == argv@[0]@
                &&& command.args@.len() == argv@.len() - 1
                &&& forall|i: int|
                    0 <= i < command.args@.len() ==> (#[trigger] command.args@[i])@ == argv@[i
                        + 1]@
                &&& command.removed_env@.len() == 1
                &&& command.removed_env@[0]@ == "PSModulePath"@
                &&& command.stdin == Handle::Null
                &&& command.stdout == Handle::Null
                &&& command.stderr == Handle::Null
                &&& !command.console_window
                &&& started is Ok <==> r is Ok
                &&& started matches Err(error) ==> (r matches Err(message) && message@
                    == "could not start "@ + argv@[0]@ + ": "@ + error@)
            },
{
    each_text_is_a_view(argv@);
    if argv@.len() > 0 {
        let view = quiet(texts(argv@))->0;
        let started = choose|started: Result<(), String>| #[trigger]
            spawns(spawn, view, started) && reports_start(
                view.program,
                started,
                r,
            );
        let command = choose|command: &QuietCommand| #[trigger]
            command.view() == view && call_ensures(spawn, (command,), started);
        runs(argv@, *command);
    }
}

/// A detached start asks of the spawner only that it takes the commands that
/// run `argv` quietly; of an empty `argv` it asks nothing.
pub proof fn detached_starts_spawn_nothing_else<F: FnOnce(&QuietCommand) -> Result<(), String>>(
    argv: &[String],
    spawn: F,
)
    requires
        forall|command: &QuietCommand|
            {
                &&& argv@.len() > 0
                &&& command.program@ == argv@[0]@
                &&& command.args@.len() == argv@.len() - 1
                &&& forall|i: int|
                    0 <= i < command.args@.len() ==> (#[trigger] command.args@[i])@ == argv@[i
                        + 1]@
                &&& command.removed_env@.len() == 1
                &&& command.removed_env@[0]@ == "PSModulePath"@
                &&& command.stdin == Handle::Null
                &&& command.stdout == Handle::Null
                &&& command.stderr == Handle::Null
                &&& !command.console_window
            } ==> #[trigger] call_requires(spawn, (command,)),
    ensures
        call_requires(spawn_detached::<F>, (argv, spawn)),
{
    assert forall|command: &QuietCommand|
        quiet(texts(argv@)) == Some(#[trigger] command.view()) implies call_requires(
        spawn,
        (command,),
    ) by {
        runs(argv@, *command);
    }
}

/// A child that is gone ends the run by its own success. One that runs is
/// looked at again in 200 milliseconds until its time is up, and then
/// killed. Every message names the program and what went wrong, the timeout
/// in whole seconds.
pub proof fn looks_are_judged(program: &str, timeout_nanos: u128, poll: Poll, r: Step)
    requires
        call_ensures(judge, (program, timeout_nanos, poll), r),
    ensures
        match poll {
            Poll::Exited { success, status } => if success {
                r matches Step::Finish(outcome) && outcome is Ok
            } else {
                r matches Step::Finish(outcome) && outcome matches Err(message) && message@
                    == program@ + " exited with "@ + status@
            },
            Poll::Running { elapsed_nanos } => if elapsed_nanos < timeout_nanos {
                r matches Step::Sleep(millis) && millis == 200
            } else {
                r matches Step::Kill(message) && message@ == program@ + " took longer than "@
                    + decimal((timeout_nanos / 1_000_000_000) as nat) + "s"@
            },
            Poll::Failed { error } => r matches Step::Finish(outcome) && outcome matches Err(
                message,
            ) && message@ == "could not wait for "@ + program@ + ": "@ + error@,
        },
{
}

} // verus!
