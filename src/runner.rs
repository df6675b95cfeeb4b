use vstd::prelude::*;
use crate::error::{error_text, TailorError};
use crate::text::{append_decimal, decimal};

verus! {

/// Why the program stops early.
#[derive(Debug)]
pub enum Stop {
    /// A child failed: end this process at once with the given code.
    ExitWith(i32),
    /// This program failed, with the given error.
    Fatal(TailorError),
}

/// The code this process ends with when a child ended with `code`
/// (`None` when a signal ended the child).
pub open spec fn propagated_code(code: Option<i32>) -> i32 {
    match code {
        Some(c) => c,
        None => -1i32,
    }
}

/// What follows a run of `command` whose `status` is given: carry on after
/// exit code zero; end with the child's code after any other ending; fail
/// with a spawn error, naming the command, when it could not be started.
pub open spec fn finished_as(
    command: Seq<char>,
    status: Result<Option<i32>, String>,
    r: Result<(), Stop>,
) -> bool {
    match status {
        Ok(code) =>
            if code == Some(0i32) {
                r is Ok
            } else {
                r == Err::<(), Stop>(Stop::ExitWith(propagated_code(code)))
            },
        Err(cause) => r matches Err(Stop::Fatal(TailorError::Spawn { command: c, cause: k }))
            && c@ == command && k == cause,
    }
}

/// What follows a run of `command`: `status` is the child's exit code
/// (`None` when a signal ended it), or why it could not be started.
pub fn finish_command(command: &str, status: Result<Option<i32>, String>) -> (r: Result<(), Stop>)
    ensures
        finished_as(command@, status, r),
{
    match status {
        Ok(Some(code)) => {
            if code == 0 {
                Ok(())
            } else {
                Err(Stop::ExitWith(code))
            }
        },
        Ok(None) => Err(Stop::ExitWith(-1)),
        Err(cause) => Err(Stop::Fatal(TailorError::Spawn { command: command.to_owned(), cause })),
    }
}

/// The error logged when `command` ran and ended with `code`.
pub open spec fn failure_text(command: Seq<char>, code: int) -> Seq<char> {
    "command '"@ + command + "' failed with exit code: "@ + decimal(code)
}

/// The error to log when `command` ran and ended with `code`.
pub fn failure_message(command: &str, code: i32) -> (r: String)
    ensures
        r@ == failure_text(command@, code as int),
{
    let mut s = String::from_str("command '");
    s.append(command);
    s.append("' failed with exit code: ");
    append_decimal(&mut s, code);
    s
}

/// The code this process ends with after `outcome`.
pub open spec fn code_of(outcome: Result<(), Stop>) -> i32 {
    match outcome {
        Ok(()) => 0i32,
        Err(Stop::ExitWith(c)) => c,
        Err(Stop::Fatal(_)) => 1i32,
    }
}

/// The code this process ends with: zero when everything succeeded, the
/// child's code when one failed, and one for a failure of its own.
pub fn exit_code(outcome: &Result<(), Stop>) -> (r: i32)
    ensures
        r == code_of(*outcome),
{
    match outcome {
        Ok(()) => 0,
        Err(Stop::ExitWith(c)) => *c,
        Err(Stop::Fatal(_)) => 1,
    }
}

/// A command that runs and fails makes this process end with the very code
/// the command ended with, and the logged error names the command and the code.
pub proof fn failed_command_code_propagates(
    command: Seq<char>,
    code: i32,
    outcome: Result<(), Stop>,
)
    requires
        code != 0,
        finished_as(command, Ok(Some(code)), outcome),
    ensures
        outcome == Err::<(), Stop>(Stop::ExitWith(code)),
        code_of(outcome) == code,
{
}

/// A command that runs and succeeds lets this process end with code zero.
pub proof fn succeeded_command_ends_cleanly(command: Seq<char>, outcome: Result<(), Stop>)
    requires
        finished_as(command, Ok(Some(0i32)), outcome),
    ensures
        code_of(outcome) == 0,
{
}

/// A command that cannot be started is a failure of this program, reported
/// with a message naming the command and the cause; it is never passed on
/// as a child's exit code.
pub proof fn unstartable_command_is_fatal(
    command: Seq<char>,
    cause: String,
    outcome: Result<(), Stop>,
)
    requires
        finished_as(command, Err(cause), outcome),
    ensures
        outcome matches Err(Stop::Fatal(e)) && error_text(e) == "failed to execute command '"@
            + command + "': "@ + cause@,
        !(outcome matches Err(Stop::ExitWith(_))),
        code_of(outcome) == 1,
{
}

} // verus!
