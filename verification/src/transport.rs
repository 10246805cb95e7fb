//! The channel transport's two policies: bounded-retry connect and
//! at-most-one-reconnect-per-send.
//!
//! The raw connects and writes are I/O and live outside this crate; here
//! each policy is a small state machine from outcome events to the next
//! required action, plus a driver for the retry policy over a transcript
//! of connect outcomes.

use vstd::prelude::*;

verus! {

/// The control channel never became reachable within the retry budget.
#[derive(Clone, Copy, Debug, PartialEq, Eq, Structural)]
pub enum ConnectionError {
    Exhausted,
}

/// Why a send ultimately failed.
#[derive(Clone, Copy, Debug, PartialEq, Eq, Structural)]
pub enum SendFailure {
    /// An I/O failure other than a closed peer; surfaced without a
    /// reconnect.
    Io,
    /// The peer closed the channel, and the one transparent reconnect
    /// cycle (or the single resend after it) failed as well.
    ConnectionLost,
}

/// What one raw write attempt came back with.
#[derive(Clone, Copy, Debug, PartialEq, Eq, Structural)]
pub enum WriteOutcome {
    /// The payload was written in full.
    Delivered,
    /// The write failed because the peer closed the connection.
    ChannelBroken,
    /// The write failed for any other reason.
    Failed,
}

/// Progress of one bounded-retry connect cycle.
#[derive(Clone, Copy, Debug)]
pub struct RetryState {
    /// Connect attempts made so far.
    pub attempts_made: usize,
    /// The retry budget.
    pub max_attempts: usize,
}

/// What the caller of the retry policy must do next.
#[derive(Clone, Copy, Debug, PartialEq, Eq, Structural)]
pub enum RetryDecision {
    /// The last attempt connected: use the connection.
    Accept,
    /// The last attempt failed and budget remains: sleep the retry delay,
    /// then attempt again.
    RetryAfterDelay,
    /// The last attempt failed and the budget is spent: surface
    /// `ConnectionError`.
    GiveUp,
}

/// Starts a connect cycle with the given budget.
pub fn retry_begin(max_attempts: usize) -> (st: RetryState)
    ensures
        st.attempts_made == 0,
        st.max_attempts == max_attempts,
{
    RetryState { attempts_made: 0, max_attempts }
}

/// Accounts for one connect attempt with outcome `success` and decides
/// what to do next.
pub fn retry_step(st: &mut RetryState, success: bool) -> (d: RetryDecision)
    requires
        old(st).attempts_made < old(st).max_attempts,
    ensures
        final(st).max_attempts == old(st).max_attempts,
        final(st).attempts_made == old(st).attempts_made + 1,
        d == (if success {
            RetryDecision::Accept
        } else if old(st).attempts_made + 1 == old(st).max_attempts {
            RetryDecision::GiveUp
        } else {
            RetryDecision::RetryAfterDelay
        }),
{
    st.attempts_made = st.attempts_made + 1;
    if success {
        RetryDecision::Accept
    } else if st.attempts_made == st.max_attempts {
        RetryDecision::GiveUp
    } else {
        RetryDecision::RetryAfterDelay
    }
}

/// What one whole connect cycle did.
#[derive(Clone, Copy, Debug)]
pub struct ConnectReport {
    /// Connect attempts actually performed.
    pub attempts: usize,
    /// Success, or the terminal error after the budget was spent.
    pub outcome: Result<(), ConnectionError>,
}

/// The bounded-retry connect policy, run against a transcript of attempt
/// outcomes: `outcomes[i]` is whether the `i`-th connect attempt would
/// succeed.  Attempts stop at the first success or when the budget is
/// spent, whichever comes first; success is returned if and only if one
/// of the first `max_attempts` outcomes is a success.
pub fn connect_with_retry(outcomes: &Vec<bool>, max_attempts: usize) -> (r: ConnectReport)
    requires
        outcomes@.len() >= max_attempts,
    ensures
        r.outcome is Ok <==> exists|i: int| 0 <= i < max_attempts && outcomes@[i],
        r.outcome is Ok ==> {
            &&& 1 <= r.attempts <= max_attempts
            &&& outcomes@[r.attempts - 1]
            &&& forall|j: int| 0 <= j < r.attempts - 1 ==> !outcomes@[j]
        },
        r.outcome is Err ==> {
            &&& r.attempts == max_attempts
            &&& forall|j: int| 0 <= j < max_attempts ==> !outcomes@[j]
            &&& r.outcome == Err::<(), ConnectionError>(ConnectionError::Exhausted)
        },
{
    let mut st = retry_begin(max_attempts);
    while st.attempts_made < max_attempts
        invariant
            st.max_attempts == max_attempts,
            st.attempts_made <= max_attempts,
            outcomes@.len() >= max_attempts,
            forall|j: int| 0 <= j < st.attempts_made ==> !outcomes@[j],
        decreases max_attempts - st.attempts_made,
    {
        let success = *vstd::std_specs::vec::vec_index(outcomes, st.attempts_made);
        let decision = retry_step(&mut st, success);
        match decision {
            RetryDecision::Accept => {
                return ConnectReport { attempts: st.attempts_made, outcome: Ok(()) };
            },
            RetryDecision::GiveUp => {
                return ConnectReport {
                    attempts: st.attempts_made,
                    outcome: Err(ConnectionError::Exhausted),
                };
            },
            RetryDecision::RetryAfterDelay => {},
        }
    }
    ConnectReport { attempts: max_attempts, outcome: Err(ConnectionError::Exhausted) }
}

/// Where one monitored send stands.
#[derive(Clone, Copy, Debug, PartialEq, Eq, Structural)]
pub enum SendPhase {
    /// The payload must be written to the current connection.
    FirstWrite,
    /// The peer closed the channel; exactly one reconnect cycle is owed.
    Reconnect,
    /// The reconnect succeeded; the payload must be written once more.
    SecondWrite,
    /// The payload went through.
    Delivered,
    /// The send failed for good; the command is not retried further.
    Failed(SendFailure),
}

/// Progress of one send through the at-most-one-reconnect policy.
#[derive(Clone, Copy, Debug)]
pub struct SendTracker {
    pub phase: SendPhase,
    /// Reconnect cycles begun for this send.
    pub reconnects: usize,
    /// Write attempts made for this send.
    pub writes: usize,
}

impl SendTracker {
    /// States the machine can actually reach: never more than one
    /// reconnect cycle and never more than two write attempts per send.
    pub open spec fn wf(self) -> bool {
        &&& self.reconnects <= 1
        &&& self.writes <= 2
        &&& (self.phase == SendPhase::FirstWrite ==> self.writes == 0 && self.reconnects == 0)
        &&& (self.phase == SendPhase::Reconnect ==> self.writes == 1 && self.reconnects == 0)
        &&& (self.phase == SendPhase::SecondWrite ==> self.writes == 1 && self.reconnects == 1)
        &&& (self.phase == SendPhase::Failed(SendFailure::ConnectionLost) ==> self.reconnects == 1)
    }
}

/// The fresh tracker for one send.
pub open spec fn spec_send_begin() -> SendTracker {
    SendTracker { phase: SendPhase::FirstWrite, reconnects: 0, writes: 0 }
}

/// The tracker after a write attempt with outcome `outcome`.  A first
/// write that hits a broken channel owes a reconnect; any other first
/// failure is fatal at once; any failure of the second write is fatal.
pub open spec fn spec_write_step(t: SendTracker, outcome: WriteOutcome) -> SendTracker {
    match t.phase {
        SendPhase::FirstWrite => match outcome {
            WriteOutcome::Delivered => SendTracker {
                phase: SendPhase::Delivered,
                writes: (t.writes + 1) as usize,
                ..t
            },
            WriteOutcome::ChannelBroken => SendTracker {
                phase: SendPhase::Reconnect,
                writes: (t.writes + 1) as usize,
                ..t
            },
            WriteOutcome::Failed => SendTracker {
                phase: SendPhase::Failed(SendFailure::Io),
                writes: (t.writes + 1) as usize,
                ..t
            },
        },
        SendPhase::SecondWrite => match outcome {
            WriteOutcome::Delivered => SendTracker {
                phase: SendPhase::Delivered,
                writes: (t.writes + 1) as usize,
                ..t
            },
            WriteOutcome::ChannelBroken => SendTracker {
                phase: SendPhase::Failed(SendFailure::ConnectionLost),
                writes: (t.writes + 1) as usize,
                ..t
            },
            WriteOutcome::Failed => SendTracker {
                phase: SendPhase::Failed(SendFailure::Io),
                writes: (t.writes + 1) as usize,
                ..t
            },
        },
        _ => t,
    }
}

/// The tracker after the owed reconnect cycle finished with `connected`.
pub open spec fn spec_reconnect_step(t: SendTracker, connected: bool) -> SendTracker {
    if t.phase == SendPhase::Reconnect {
        if connected {
            SendTracker {
                phase: SendPhase::SecondWrite,
                reconnects: (t.reconnects + 1) as usize,
                ..t
            }
        } else {
            SendTracker {
                phase: SendPhase::Failed(SendFailure::ConnectionLost),
                reconnects: (t.reconnects + 1) as usize,
                ..t
            }
        }
    } else {
        t
    }
}

/// Starts tracking one send.
pub fn send_begin() -> (t: SendTracker)
    ensures
        t == spec_send_begin(),
        t.wf(),
{
    SendTracker { phase: SendPhase::FirstWrite, reconnects: 0, writes: 0 }
}

/// Accounts for one write attempt.  The caller acts on the resulting
/// phase: `Reconnect` means run one full connect cycle, `SecondWrite`
/// cannot result from a write, `Delivered` and `Failed` are terminal.
pub fn send_write_result(t: &mut SendTracker, outcome: WriteOutcome)
    requires
        old(t).wf(),
        old(t).phase == SendPhase::FirstWrite || old(t).phase == SendPhase::SecondWrite,
    ensures
        *final(t) == spec_write_step(*old(t), outcome),
        final(t).wf(),
{
    t.writes = t.writes + 1;
    let next = match (t.phase, outcome) {
        (SendPhase::FirstWrite, WriteOutcome::Delivered) => SendPhase::Delivered,
        (SendPhase::FirstWrite, WriteOutcome::ChannelBroken) => SendPhase::Reconnect,
        (SendPhase::FirstWrite, WriteOutcome::Failed) => SendPhase::Failed(SendFailure::Io),
        (SendPhase::SecondWrite, WriteOutcome::Delivered) => SendPhase::Delivered,
        (SendPhase::SecondWrite, WriteOutcome::ChannelBroken) => SendPhase::Failed(
            SendFailure::ConnectionLost,
        ),
        (SendPhase::SecondWrite, WriteOutcome::Failed) => SendPhase::Failed(SendFailure::Io),
        (_, _) => t.phase,
    };
    t.phase = next;
}

/// Accounts for the one reconnect cycle a broken channel is owed.
pub fn send_reconnect_result(t: &mut SendTracker, connected: bool)
    requires
        old(t).wf(),
        old(t).phase == SendPhase::Reconnect,
    ensures
        *final(t) == spec_reconnect_step(*old(t), connected),
        final(t).wf(),
{
    t.reconnects = t.reconnects + 1;
    t.phase = if connected {
        SendPhase::SecondWrite
    } else {
        SendPhase::Failed(SendFailure::ConnectionLost)
    };
}

/// A send whose first write hits a broken-channel condition triggers
/// exactly one reconnect cycle — never a second — and makes at most one
/// further write attempt: if the reconnect fails, or the resend fails in
/// turn, the send is over with a terminal failure.
pub proof fn lemma_broken_channel_reconnects_once(reconnect_ok: bool, second: WriteOutcome)
    ensures
        ({
            let after_break = spec_write_step(spec_send_begin(), WriteOutcome::ChannelBroken);
            let after_reconnect = spec_reconnect_step(after_break, reconnect_ok);
            &&& after_break.phase == SendPhase::Reconnect
            &&& after_reconnect.reconnects == 1
            &&& (!reconnect_ok ==> after_reconnect.phase == SendPhase::Failed(
                SendFailure::ConnectionLost,
            ))
            &&& (reconnect_ok ==> {
                let after_resend = spec_write_step(after_reconnect, second);
                &&& after_resend.reconnects == 1
                &&& after_resend.writes == 2
                &&& (second == WriteOutcome::Delivered ==> after_resend.phase
                    == SendPhase::Delivered)
                &&& (second != WriteOutcome::Delivered ==> after_resend.phase matches
                    SendPhase::Failed(_))
            })
        }),
{
}

} // verus!
