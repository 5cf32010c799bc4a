//! The xrun-recovery protocol, as pure decisions.
//!
//! A transfer that moves fewer frames than requested is an xrun. Playback
//! recovers exactly once per call: re-prime the device buffer, retry the
//! same transfer once, and treat a second shortfall — or a failed
//! re-priming — as fatal. Capture never recovers: a failed read is reported
//! as zero frames. Whoever performs the transfers (the manager against a
//! device model, or a host binding against the real driver) hands each
//! outcome to these functions and follows the step they return, so the
//! policy itself lives here, verified, and nowhere else.

use vstd::prelude::*;

verus! {

/// What one transfer attempt came back with: a frame count, or an outright
/// device error. For the playback policy an error counts as zero frames
/// moved.
#[derive(Clone, Copy, PartialEq, Eq, Structural, Debug)]
pub enum TransferOutcome {
    Wrote(usize),
    Failed,
}

/// An unrecoverable outcome of one `push` call.
#[derive(Clone, Copy, PartialEq, Eq, Structural, Debug)]
pub enum PushError {
    /// Re-priming the device buffer itself failed; there is no further
    /// fallback.
    RecoverFailed,
    /// The retried transfer fell short again: a double underrun.
    DoubleUnderrun,
}

/// The next thing the caller of the protocol must do.
#[derive(Clone, Copy, PartialEq, Eq, Structural, Debug)]
pub enum PushStep {
    /// The call is over. The flag is the one non-fatal diagnostic: `true`
    /// iff an underrun was recovered, to be logged exactly once.
    Done(bool),
    /// Invoke the recovery primitive, silently, then classify its result.
    Recover,
    /// Re-priming succeeded: retry the same transfer once, with the same
    /// buffer.
    Retry,
    /// Terminate the call with this fatal outcome.
    Fatal(PushError),
}

/// Frames an outcome moved: an error moves none.
pub open spec fn outcome_frames(o: TransferOutcome) -> nat {
    match o {
        TransferOutcome::Wrote(n) => n as nat,
        TransferOutcome::Failed => 0,
    }
}

/// Whether an outcome falls short of the `req` frames requested: an xrun.
pub open spec fn outcome_short(o: TransferOutcome, req: nat) -> bool {
    outcome_frames(o) < req
}

/// Classifies the first transfer of a `push` call: a full write ends the
/// call cleanly; anything less demands recovery.
pub fn classify_write(req: usize, o: TransferOutcome) -> (s: PushStep)
    ensures
        s == if outcome_short(o, req as nat) {
            PushStep::Recover
        } else {
            PushStep::Done(false)
        },
{
    let n = match o {
        TransferOutcome::Wrote(n) => n,
        TransferOutcome::Failed => 0,
    };
    if n < req {
        PushStep::Recover
    } else {
        PushStep::Done(false)
    }
}

/// Classifies the recovery primitive's result: on success the transfer is
/// retried once; a failure to recover is fatal.
pub fn classify_recover(recovered: bool) -> (s: PushStep)
    ensures
        s == if recovered {
            PushStep::Retry
        } else {
            PushStep::Fatal(PushError::RecoverFailed)
        },
{
    if recovered {
        PushStep::Retry
    } else {
        PushStep::Fatal(PushError::RecoverFailed)
    }
}

/// Classifies the retried transfer: completing it in full ends the call
/// with the recovery diagnostic; falling short again is a double underrun,
/// and fatal.
pub fn classify_retry(req: usize, o: TransferOutcome) -> (s: PushStep)
    ensures
        s == if outcome_short(o, req as nat) {
            PushStep::Fatal(PushError::DoubleUnderrun)
        } else {
            PushStep::Done(true)
        },
{
    let n = match o {
        TransferOutcome::Wrote(n) => n,
        TransferOutcome::Failed => 0,
    };
    if n < req {
        PushStep::Fatal(PushError::DoubleUnderrun)
    } else {
        PushStep::Done(true)
    }
}

/// The capture policy: a read error is silently degraded to zero frames
/// read, never surfaced as a fatal condition.
pub fn captured_frames(o: TransferOutcome) -> (n: usize)
    ensures
        n == outcome_frames(o),
{
    match o {
        TransferOutcome::Wrote(n) => n,
        TransferOutcome::Failed => 0,
    }
}

} // verus!
