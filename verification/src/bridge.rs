use vstd::prelude::*;

verus! {

/// Bound on acquiring the OS transport-control manager. Deliberately its
/// own constant: manager acquisition is allowed to wait longer than the
/// general media-transport bound below.
pub const MANAGER_REQUEST_TIMEOUT_MS: u64 = 5000;

/// General bound on one asynchronous media-transport operation.
pub const MEDIA_TRANSPORT_TIMEOUT_MS: u64 = 3000;

/// Bound on opening and reading one artwork stream.
pub const THUMBNAIL_STREAM_TIMEOUT_MS: u64 = 1000;

/// How one bounded wait on an OS asynchronous operation ended: the value
/// arrived in time, the OS reported an error, or the timeout fired first.
pub enum AwaitOutcome<V> {
    Ready(V),
    Failed,
    TimedOut,
}

/// The bridge's verdict on one wait: the value to hand the caller, if any,
/// and whether a best-effort cancel request must be issued to the operation.
pub struct WaitVerdict<V> {
    pub value: Option<V>,
    pub cancel: bool,
}

/// Failure modes collapse to one outcome: only a value that arrived in time
/// is returned, and every other ending demands a cancel request.
pub open spec fn spec_wait_verdict<V>(outcome: AwaitOutcome<V>) -> WaitVerdict<V> {
    match outcome {
        AwaitOutcome::Ready(v) => WaitVerdict { value: Some(v), cancel: false },
        AwaitOutcome::Failed => WaitVerdict { value: None, cancel: true },
        AwaitOutcome::TimedOut => WaitVerdict { value: None, cancel: true },
    }
}

/// Resolves the ending of one bounded wait. The executor that drove the
/// operation reports how the wait ended; the verdict says what the caller
/// receives and whether the operation must be cancelled before returning.
/// Callers never learn why a wait failed, only that it did.
pub fn resolveWait<V>(outcome: AwaitOutcome<V>) -> (r: WaitVerdict<V>)
    ensures
        r == spec_wait_verdict(outcome),
        outcome matches AwaitOutcome::Ready(v) ==> r.value == Some(v) && !r.cancel,
        !(outcome is Ready) ==> r.value is None && r.cancel,
{
    match outcome {
        AwaitOutcome::Ready(v) => WaitVerdict { value: Some(v), cancel: false },
        AwaitOutcome::Failed => WaitVerdict { value: None, cancel: true },
        AwaitOutcome::TimedOut => WaitVerdict { value: None, cancel: true },
    }
}

/// An operation that never completes within its bound yields no value and
/// leaves with a cancel request issued: the timeout path can neither return
/// a value nor skip cancellation.
pub proof fn lemma_timeout_yields_failure_and_cancel<V>(outcome: AwaitOutcome<V>)
    requires
        outcome is TimedOut,
    ensures
        spec_wait_verdict(outcome).value is None,
        spec_wait_verdict(outcome).cancel,
{
}

} // verus!
