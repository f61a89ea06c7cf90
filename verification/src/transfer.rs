//! The transfer-and-verify retry loop, as a pure state machine.
//!
//! The machine owns every decision of the loop: when to write, when to
//! read, how long to back off, and when the deadline ends the run. The
//! caller performs the transport work an action asks for and reports what
//! happened as the next event, together with the milliseconds elapsed since
//! the loop started.

use vstd::prelude::*;

use crate::response::{classify, spec_accepted, Verdict};

verus! {

/// Time budget for the whole loop, in milliseconds.
pub const DEFAULT_DEADLINE_MS: u64 = 5000;

/// Bound on one read attempt, in milliseconds.
pub const READ_TIMEOUT_MS: u64 = 200;

/// Where the machine stands between two events.
#[derive(Clone, Copy, Debug, PartialEq, Eq, Structural)]
pub enum TransferPhase {
    /// Between attempts: the next event is a clock tick.
    Idle,
    /// A write of the frame is in flight.
    Sending,
    /// The write succeeded; a bounded read is in flight.
    Awaiting,
    /// The run is over, successfully or not.
    Finished,
}

/// The machine's whole state: its phase, how many attempts have started,
/// and whether a response was accepted.
#[derive(Clone, Copy, Debug, PartialEq, Eq, Structural)]
pub struct TransferState {
    pub phase: TransferPhase,
    pub attempt: u64,
    pub success: bool,
}

/// What the caller reports back to the machine.
#[derive(Debug)]
pub enum TransferEvent {
    /// The loop is at its top; `elapsed_ms` is the time since it started.
    Tick { elapsed_ms: u64 },
    /// The write finished, successfully or not.
    Wrote { ok: bool },
    /// The bounded read finished: `bytes_read` bytes of `response` arrived
    /// (zero on a timeout or a read error).
    Received { response: Vec<u8>, bytes_read: usize, elapsed_ms: u64 },
}

/// What the caller must do next.
#[derive(Clone, Copy, Debug, PartialEq, Eq, Structural)]
pub enum TransferAction {
    /// Write the 32-byte command frame, then report `Wrote`.
    WriteFrame,
    /// Read one response with the per-attempt timeout, then report
    /// `Received`.
    ReadResponse,
    /// Sleep for `ms` milliseconds, then report `Tick`.
    Backoff { ms: u64 },
    /// Report `Tick` at once, with no sleep.
    Retry,
    /// Stop: the run ended with this result.
    Finish { success: bool },
}

impl TransferState {
    /// Invariant kept by every step: an attempt is under way exactly while
    /// sending or awaiting, and success is only declared once finished.
    pub open spec fn wf(self) -> bool {
        &&& ((self.phase == TransferPhase::Sending || self.phase == TransferPhase::Awaiting)
            ==> self.attempt >= 1)
        &&& (self.phase != TransferPhase::Finished ==> !self.success)
    }

    /// The state before anything happened.
    pub fn new() -> (s: TransferState)
        ensures
            s == (TransferState { phase: TransferPhase::Idle, attempt: 0, success: false }),
    {
        TransferState { phase: TransferPhase::Idle, attempt: 0, success: false }
    }
}

/// The event kind the machine expects in each phase.
pub open spec fn event_fits(phase: TransferPhase, ev: TransferEvent) -> bool {
    match ev {
        TransferEvent::Tick { .. } => phase == TransferPhase::Idle,
        TransferEvent::Wrote { .. } => phase == TransferPhase::Sending,
        TransferEvent::Received { .. } => phase == TransferPhase::Awaiting,
    }
}

/// Backoff before the next attempt after `attempt` was rejected: 50 ms
/// doubled per attempt, capped at 800 ms.
pub open spec fn spec_backoff_ms(attempt: u64) -> u64 {
    if attempt <= 1 {
        50
    } else if attempt == 2 {
        100
    } else if attempt == 3 {
        200
    } else if attempt == 4 {
        400
    } else {
        800
    }
}

/// Computes the backoff interval: 50, 100, 200, 400, then 800 ms for every
/// later attempt.
pub fn backoff_ms(attempt: u64) -> (ms: u64)
    requires
        attempt >= 1,
    ensures
        ms == spec_backoff_ms(attempt),
{
    if attempt <= 1 {
        50
    } else if attempt == 2 {
        100
    } else if attempt == 3 {
        200
    } else if attempt == 4 {
        400
    } else {
        800
    }
}

/// A backoff sleep is taken only when a further attempt still fits before
/// the deadline once the sleep is over.
pub open spec fn backoff_allowed(elapsed_ms: u64, attempt: u64, deadline_ms: u64) -> bool {
    elapsed_ms + spec_backoff_ms(attempt) < deadline_ms
}

/// Advances the machine by one event and says what to do next.
///
/// At a tick, a run past its deadline finishes unsuccessfully and any other
/// run starts attempt `attempt + 1` with a write. A failed write retries at
/// once, with no backoff charged to that attempt; a successful write moves
/// on to the read. A received response ends the run successfully when it is
/// accepted for `sent_payload`; otherwise the machine backs off before the
/// next tick if a further attempt still fits before the deadline, and goes
/// straight to the next tick if not.
pub fn transfer_step(
    st: &mut TransferState,
    ev: &TransferEvent,
    deadline_ms: u64,
    sent_payload: &[u8],
) -> (a: TransferAction)
    requires
        old(st).wf(),
        old(st).phase != TransferPhase::Finished,
        event_fits(old(st).phase, *ev),
        old(st).attempt < u64::MAX,
        (ev matches TransferEvent::Received { response, bytes_read, .. } ==> bytes_read
            <= response@.len()),
    ensures
        final(st).wf(),
        match *ev {
            TransferEvent::Tick { elapsed_ms } => {
                if elapsed_ms >= deadline_ms {
                    *final(st) == (TransferState {
                        phase: TransferPhase::Finished,
                        attempt: old(st).attempt,
                        success: false,
                    }) && a == (TransferAction::Finish { success: false })
                } else {
                    *final(st) == (TransferState {
                        phase: TransferPhase::Sending,
                        attempt: (old(st).attempt + 1) as u64,
                        success: false,
                    }) && a == TransferAction::WriteFrame
                }
            },
            TransferEvent::Wrote { ok } => {
                if ok {
                    *final(st) == (TransferState {
                        phase: TransferPhase::Awaiting,
                        attempt: old(st).attempt,
                        success: false,
                    }) && a == TransferAction::ReadResponse
                } else {
                    *final(st) == (TransferState {
                        phase: TransferPhase::Idle,
                        attempt: old(st).attempt,
                        success: false,
                    }) && a == TransferAction::Retry
                }
            },
            TransferEvent::Received { response, bytes_read, elapsed_ms } => {
                if spec_accepted(response@, bytes_read as int, sent_payload@) {
                    *final(st) == (TransferState {
                        phase: TransferPhase::Finished,
                        attempt: old(st).attempt,
                        success: true,
                    }) && a == (TransferAction::Finish { success: true })
                } else if backoff_allowed(elapsed_ms, old(st).attempt, deadline_ms) {
                    *final(st) == (TransferState {
                        phase: TransferPhase::Idle,
                        attempt: old(st).attempt,
                        success: false,
                    }) && a == (TransferAction::Backoff {
                        ms: spec_backoff_ms(old(st).attempt),
                    })
                } else {
                    *final(st) == (TransferState {
                        phase: TransferPhase::Idle,
                        attempt: old(st).attempt,
                        success: false,
                    }) && a == TransferAction::Retry
                }
            },
        },
{
    match ev {
        TransferEvent::Tick { elapsed_ms } => {
            if *elapsed_ms >= deadline_ms {
                st.phase = TransferPhase::Finished;
                TransferAction::Finish { success: false }
            } else {
                st.attempt = st.attempt + 1;
                st.phase = TransferPhase::Sending;
                TransferAction::WriteFrame
            }
        },
        TransferEvent::Wrote { ok } => {
            if *ok {
                st.phase = TransferPhase::Awaiting;
                TransferAction::ReadResponse
            } else {
                st.phase = TransferPhase::Idle;
                TransferAction::Retry
            }
        },
        TransferEvent::Received { response, bytes_read, elapsed_ms } => {
            let verdict = classify(response.as_slice(), *bytes_read, sent_payload);
            match verdict {
                Verdict::Accepted { .. } => {
                    st.phase = TransferPhase::Finished;
                    st.success = true;
                    TransferAction::Finish { success: true }
                },
                Verdict::Rejected { .. } => {
                    let wait = backoff_ms(st.attempt);
                    st.phase = TransferPhase::Idle;
                    if *elapsed_ms < deadline_ms && wait < deadline_ms - *elapsed_ms {
                        TransferAction::Backoff { ms: wait }
                    } else {
                        TransferAction::Retry
                    }
                },
            }
        },
    }
}

} // verus!
