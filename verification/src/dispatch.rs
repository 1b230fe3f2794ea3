use vstd::prelude::*;

verus! {

/// The fixed set of transport commands a caller can issue to a session.
#[derive(Clone, Copy, Debug, PartialEq, Eq, Structural)]
pub enum TransportCommand {
    Next,
    Previous,
    Play,
    Pause,
    TogglePlayPause,
    Stop,
}

/// An index resolves against a freshly fetched session list exactly when it
/// is in bounds.
pub open spec fn spec_session_lookup_ok(session_count: nat, index: u32) -> bool {
    (index as nat) < session_count
}

/// The boolean a command dispatch reports: true only when a session was
/// resolved and the OS completed the command in time with success.
pub open spec fn spec_command_result(session_found: bool, invoked: Option<bool>) -> bool {
    session_found && invoked == Some(true)
}

/// Resolves a caller-supplied index against the freshly fetched session
/// list: the session at that position when the index is in bounds, nothing
/// otherwise. Out-of-bounds lookup is an ordinary `None`, never a fault.
pub fn getSMTCSession<T>(sessions: &Vec<T>, index: u32) -> (r: Option<&T>)
    ensures
        r is Some <==> spec_session_lookup_ok(sessions@.len(), index),
        r matches Some(s) ==> *s == sessions@[index as int],
{
    if (index as usize) < sessions.len() {
        Some(&sessions[index as usize])
    } else {
        None
    }
}

/// Folds a command dispatch into its boolean outcome. `session_found` says
/// whether the index resolved to a live session; `invoked` is the OS-reported
/// completion of the command, or `None` when no command was invoked or the
/// bridge timed out or failed. Every failure collapses to `false`.
pub fn commandOutcome(session_found: bool, invoked: Option<bool>) -> (r: bool)
    ensures
        r == spec_command_result(session_found, invoked),
{
    session_found && match invoked {
        Some(b) => b,
        None => false,
    }
}

/// Dispatch on an out-of-range index reports `false`, whatever the OS would
/// have answered: the lookup cannot succeed, so no invocation outcome can
/// turn the result true.
pub proof fn lemma_out_of_range_command_false(session_count: nat, index: u32)
    requires
        session_count <= index as nat,
    ensures
        !spec_session_lookup_ok(session_count, index),
        forall|invoked: Option<bool>|
            !spec_command_result(spec_session_lookup_ok(session_count, index), invoked),
{
}

} // verus!
