use vstd::prelude::*;

verus! {

/// How asking the platform to restart the app went.
#[derive(Clone, Debug)]
pub enum RestartOutcome {
    /// The process bridge could not be had.
    BridgeUnavailable,
    /// The restart call returned this code.
    Returned(i32),
    /// The restart call failed with this reason.
    Failed(String),
}

/// What the restart command does next.
#[derive(Clone, Copy, Debug, PartialEq, Eq, Structural)]
pub enum RestartAction {
    /// The restart was dispatched: block and let the platform kill the process.
    AwaitTermination,
    /// The restart was not dispatched: exit the process with this code.
    Exit(i32),
}

/// The restart decision: only a restart call that returned code 0 was
/// dispatched; in every other case the process exits with code 0 itself.
pub fn restart_action(outcome: &RestartOutcome) -> (a: RestartAction)
    ensures
        a == (if outcome matches RestartOutcome::Returned(code) && code == 0 {
            RestartAction::AwaitTermination
        } else {
            RestartAction::Exit(0)
        }),
{
    let dispatched = match outcome {
        RestartOutcome::Returned(code) => *code == 0,
        RestartOutcome::Failed(_) => false,
        RestartOutcome::BridgeUnavailable => false,
    };
    if dispatched {
        RestartAction::AwaitTermination
    } else {
        RestartAction::Exit(0)
    }
}

} // verus!
