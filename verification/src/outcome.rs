//! The observable result of launching a candidate binary.

use vstd::prelude::*;

verus! {

/// What happened when a candidate binary was spawned with a version flag.
///
/// `Completed` means the operating system started the process and an exit
/// status could be obtained, whatever that status was; `LaunchFailed` means
/// the process could not be started at all (missing file, not executable,
/// permission denied).
#[derive(Clone, Copy, Debug, PartialEq, Eq, Structural)]
pub enum RunOutcome {
    Completed { exit_code: i32 },
    LaunchFailed,
}

/// True exactly when the spawn yielded an exit status at all.
pub open spec fn spec_ran_ok(outcome: RunOutcome) -> bool {
    outcome is Completed
}

/// Decides validation from a spawn outcome: a candidate validates exactly
/// when it could be launched, regardless of the exit code it reported.
pub fn git_ran_ok(outcome: &RunOutcome) -> (r: bool)
    ensures
        r == spec_ran_ok(*outcome),
{
    match outcome {
        RunOutcome::Completed { .. } => true,
        RunOutcome::LaunchFailed => false,
    }
}

} // verus!
