//! A lock-free event for processes that share a mapping.
//!
//! The event is not a resource of its own: it is two bytes of data placed
//! inside a mapping's region, a signal flag and a fixed auto/manual-reset
//! flag.  Waiting spins on the signal with relaxed atomics; no OS blocking
//! primitive is involved, and no ordering over other bytes of the mapping is
//! established.  One spin is `wait_attempt`, and `wait_step` decides from its
//! observation and the clock whether a waiter passes, spins on, or times out;
//! the caller repeats the two until `wait_step` ends the wait, since the spin
//! may genuinely never terminate.  Because other processes write the signal
//! concurrently, nothing can be assumed about the value an attempt observes;
//! the contracts pin down everything that holds regardless.  The intended
//! meaning of the signal itself is the state machine `model_wait_step`/
//! `model_set` below, whose laws are proved once and for all over that model.

use vstd::prelude::*;

use core::sync::atomic::{AtomicU8, Ordering};

verus! {

use crate::error::ShmemError;

/// How long a wait may block.
pub enum Timeout {
    /// Block until the event is signaled, however long that takes.
    Infinite,
    /// Give up with a timeout error once this much time has passed.
    Val(std::time::Duration),
}

/// The two externally visible states of an event.
pub enum EventState {
    /// Clears the event so the next `wait` call will block.
    Clear,
    /// Sets the event to the signaled state, unblocking waiters.
    Signaled,
}

/// The event's state as mathematics: the signal and the fixed variant flag.
pub struct EventModel {
    /// Whether the event is signaled.
    pub signaled: bool,
    /// True for an auto-reset event, false for manual-reset; fixed at
    /// initialization.
    pub auto_reset: bool,
}

/// What `set` does to the state.
pub open spec fn model_set(m: EventModel, s: EventState) -> EventModel {
    EventModel { signaled: s is Signaled, ..m }
}

/// One waiter's atomic attempt: it passes exactly when the signal is set,
/// and a successful pass on an auto-reset event consumes the signal.
pub open spec fn model_wait_step(m: EventModel) -> (EventModel, bool) {
    if m.signaled {
        (EventModel { signaled: !m.auto_reset, ..m }, true)
    } else {
        (m, false)
    }
}

/// How many of `n` consecutive wait attempts pass, starting from `m`.
pub open spec fn model_pass_count(m: EventModel, n: nat) -> nat
    decreases n,
{
    if n == 0 {
        0
    } else {
        let step = model_wait_step(m);
        (if step.1 {
            1nat
        } else {
            0nat
        }) + model_pass_count(step.0, (n - 1) as nat)
    }
}

/// While an event stays clear, no number of wait attempts passes.
pub proof fn lemma_clear_blocks(m: EventModel, n: nat)
    requires
        !m.signaled,
    ensures
        model_pass_count(m, n) == 0,
    decreases n,
{
    if n > 0 {
        lemma_clear_blocks(m, (n - 1) as nat);
    }
}

/// Auto-reset: after one signal, exactly one of any positive number of
/// consecutive wait attempts passes — the first one, which consumes the
/// signal — and every later attempt blocks until the event is signaled
/// again.
pub proof fn lemma_auto_reset_single_consumer(m: EventModel, n: nat)
    requires
        m.auto_reset,
        n >= 1,
    ensures
        ({
            let s = model_set(m, EventState::Signaled);
            model_pass_count(s, n) == 1 && !model_wait_step(s).0.signaled
        }),
{
    let s = model_set(m, EventState::Signaled);
    lemma_clear_blocks(model_wait_step(s).0, (n - 1) as nat);
}

/// Manual-reset: once signaled, every wait attempt passes and leaves the
/// state untouched, however many there are.
pub proof fn lemma_manual_reset_passes_all(m: EventModel, n: nat)
    requires
        !m.auto_reset,
        m.signaled,
    ensures
        model_pass_count(m, n) == n,
        model_wait_step(m).0 == m,
    decreases n,
{
    if n > 0 {
        lemma_manual_reset_passes_all(m, (n - 1) as nat);
    }
}

/// Manual-reset, end to end: after one signal every wait passes, and after a
/// clear every wait blocks.
pub proof fn lemma_manual_reset_until_cleared(m: EventModel, n: nat)
    requires
        !m.auto_reset,
    ensures
        model_pass_count(model_set(m, EventState::Signaled), n) == n,
        model_pass_count(model_set(m, EventState::Clear), n) == 0,
{
    lemma_manual_reset_passes_all(model_set(m, EventState::Signaled), n);
    lemma_clear_blocks(model_set(m, EventState::Clear), n);
}

/// The event as it lies inside a mapping's bytes: an atomic signal byte
/// (0 = clear, 1 = signaled) and the variant flag byte (0 = manual-reset,
/// 1 = auto-reset, fixed at initialization).
pub struct BusyEvent {
    signal: AtomicU8,
    auto_reset: u8,
}

impl BusyEvent {
    /// The fixed flag holds nothing but 0 or 1; anything else means the
    /// region was reused or corrupted.  The signal byte is shared with other
    /// processes and can only be checked at a moment in time, so
    /// well-formedness speaks of the fixed flag alone.
    pub closed spec fn wf(&self) -> bool {
        self.auto_reset <= 1
    }

    /// Whether this is an auto-reset event.
    pub closed spec fn is_auto(&self) -> bool {
        self.auto_reset == 1
    }

    /// The number of bytes of a mapping's region the event occupies.
    pub fn size_of() -> (r: usize)
        ensures
            r as nat == vstd::layout::size_of::<BusyEvent>(),
    {
        core::mem::size_of::<BusyEvent>()
    }

    /// A fresh event of the chosen variant, cleared.
    pub fn new(auto_reset: bool) -> (r: BusyEvent)
        ensures
            r.wf(),
            r.is_auto() == auto_reset,
    {
        BusyEvent {
            signal: AtomicU8::new(0),
            auto_reset: if auto_reset {
                1
            } else {
                0
            },
        }
    }

    /// The re-attach decision: an existing event is accepted exactly when
    /// the fixed flag is well formed and the signal byte it was seen to hold
    /// is 0 or 1; anything else is reported as corruption.
    pub fn validate_bytes(&self, signal_val: u8) -> (r: Result<(), ShmemError>)
        ensures
            r is Ok <==> (self.wf() && signal_val <= 1),
            r matches Err(e) ==> (e matches ShmemError::Unknown(m) && m@
                == "Existing BusyEvent is corrupted"@),
    {
        if self.auto_reset > 1 || signal_val > 1 {
            Err(ShmemError::Unknown("Existing BusyEvent is corrupted".to_owned()))
        } else {
            Ok(())
        }
    }

    /// Validates an event found in an already-initialized region rather than
    /// silently proceeding: loads the shared signal byte once and accepts
    /// exactly when `validate_bytes` accepts what it saw.  Success cannot be
    /// promised here — the loaded byte comes from shared memory and may hold
    /// anything — so the decision itself is `validate_bytes`, exact in both
    /// directions for every observation.
    pub fn from_existing(&self) -> (r: Result<(), ShmemError>)
        ensures
            r is Ok ==> self.wf(),
            !self.wf() ==> r is Err,
            r matches Err(e) ==> (e matches ShmemError::Unknown(m) && m@
                == "Existing BusyEvent is corrupted"@),
    {
        let signal_val = self.signal.load(Ordering::Relaxed);
        self.validate_bytes(signal_val)
    }

    /// One atomic wait attempt, which is also the fast path of a full wait:
    /// a consuming compare-exchange from signaled to clear for an auto-reset
    /// event, a plain load for a manual-reset one.  Returns the value the
    /// signal held at that moment; because every process mapping the region
    /// may store to the signal concurrently, no contract can pin that value
    /// down — `wait_step` says what each observation means.
    pub fn wait_attempt(&self) -> u8 {
        if self.auto_reset == 1 {
            match self.signal.compare_exchange(1, 0, Ordering::Relaxed, Ordering::Relaxed) {
                Ok(v) => v,
                Err(v) => v,
            }
        } else {
            self.signal.load(Ordering::Relaxed)
        }
    }

    /// Stores the given state into the signal; setting and clearing never
    /// fail.
    pub fn set(&self, state: EventState) -> (r: Result<(), ShmemError>)
        ensures
            r is Ok,
    {
        match state {
            EventState::Clear => self.signal.store(0, Ordering::Relaxed),
            EventState::Signaled => self.signal.store(1, Ordering::Relaxed),
        };
        Ok(())
    }
}

/// What a waiter does after one attempt.
#[derive(Debug)]
pub enum WaitStep {
    /// The attempt observed the signal set: the wait returns success.
    Pass,
    /// Not signaled and the deadline (if any) has not passed: spin again.
    KeepWaiting,
    /// Not signaled and a bounded timeout has run out: surface this error.
    TimedOut(ShmemError),
}

/// Decides a waiter's next move from one attempt's observation and the
/// clock: a wait passes exactly when an attempt observed the signal set; an
/// unbounded wait otherwise keeps spinning, however long that takes; and a
/// bounded wait gives up with the timeout error exactly when the clock
/// reading says the whole limit has passed — never earlier.
///
/// `elapsed` is the monotonic time since the wait began and `limit` the
/// bound, both in the same unit of time — hand in the finest the clock
/// gives, or the wait may end a fraction of a unit early; `limit` is
/// ignored for an unbounded wait.
pub fn wait_step(observed: u8, timeout: &Timeout, elapsed: u128, limit: u128) -> (r:
    WaitStep)
    ensures
        observed == 1 ==> r == WaitStep::Pass,
        observed != 1 && (timeout is Infinite || elapsed < limit) ==> r
            == WaitStep::KeepWaiting,
        observed != 1 && timeout is Val && elapsed >= limit ==> (r matches WaitStep::TimedOut(
            e,
        ) && e matches ShmemError::Unknown(m) && m@ == "Waiting for BusyEvent timed out !"@),
{
    if observed == 1 {
        WaitStep::Pass
    } else {
        match timeout {
            Timeout::Infinite => WaitStep::KeepWaiting,
            Timeout::Val(_) => {
                if elapsed >= limit {
                    WaitStep::TimedOut(
                        ShmemError::Unknown("Waiting for BusyEvent timed out !".to_owned()),
                    )
                } else {
                    WaitStep::KeepWaiting
                }
            },
        }
    }
}

} // verus!
