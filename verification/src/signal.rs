//! The completion signal: a single-slot primitive through which the hardware
//! producer tells one waiting consumer that a period is ready.
//!
//! The signal holds a `ready` flag and at most one waker.  It never wakes
//! anything itself: `signal_ready` hands the stored waker to the producer,
//! which invokes it.  The waker type `W` is whatever handle the caller's
//! scheduler uses to resume a task; the signal only stores and returns it.

use vstd::prelude::*;

verus! {

/// Where the signal stands in its cycle.
#[derive(Clone, Copy, Debug, PartialEq, Eq, Structural)]
pub enum SignalState {
    /// No period is ready and nobody waits.
    Idle,
    /// No period is ready and a waker is stored.
    Pending,
    /// A period is ready and has not been consumed.
    Ready,
}

/// What a poll of the signal found.
#[derive(Clone, Copy, Debug, PartialEq, Eq, Structural)]
pub enum PollOutcome {
    /// A period was ready; the consumer goes on at once.
    Complete,
    /// Nothing was ready; the waker was stored.
    Pending,
}

/// The abstract value of a [`CompletionSignal`].
pub struct SignalView<W> {
    /// A period is ready and not yet consumed.
    pub ready: bool,
    /// The waker of the one consumer that waits, if any.
    pub waker: Option<W>,
    /// How many periods were signalled while the one before was still
    /// unconsumed.  It stops counting at `u64::MAX`.
    pub missed: u64,
}

impl<W> SignalView<W> {
    /// A ready signal stores no waker: whoever waited has been handed out.
    pub open spec fn well_formed(self) -> bool {
        self.ready ==> self.waker is None
    }

    /// The state of the cycle that this value is in.
    pub open spec fn state(self) -> SignalState {
        if self.ready {
            SignalState::Ready
        } else if self.waker is Some {
            SignalState::Pending
        } else {
            SignalState::Idle
        }
    }

    /// The signal at the start of a session.
    pub open spec fn idle() -> Self {
        SignalView { ready: false, waker: None, missed: 0 }
    }

    /// The value after the producer signals a period.
    pub open spec fn signalled(self) -> Self {
        SignalView {
            ready: true,
            waker: None,
            missed: if self.ready && self.missed < u64::MAX {
                (self.missed + 1) as u64
            } else {
                self.missed
            },
        }
    }

    /// The waker that the producer must invoke when it signals a period.
    pub open spec fn woken(self) -> Option<W> {
        self.waker
    }

    /// What a poll finds.
    pub open spec fn outcome(self) -> PollOutcome {
        if self.ready {
            PollOutcome::Complete
        } else {
            PollOutcome::Pending
        }
    }

    /// The value after the consumer polls with `waker`.
    pub open spec fn polled(self, waker: W) -> Self {
        if self.ready {
            SignalView { ready: false, waker: self.waker, missed: self.missed }
        } else {
            SignalView { ready: false, waker: Some(waker), missed: self.missed }
        }
    }
}

/// A ready flag and at most one stored waker.
pub struct CompletionSignal<W> {
    ready: bool,
    waker: Option<W>,
    missed: u64,
}

impl<W> View for CompletionSignal<W> {
    type V = SignalView<W>;

    closed spec fn view(&self) -> SignalView<W> {
        SignalView { ready: self.ready, waker: self.waker, missed: self.missed }
    }
}

impl<W> CompletionSignal<W> {
    #[verifier::type_invariant]
    spec fn ready_holds_no_waker(self) -> bool {
        self.ready ==> self.waker is None
    }

    /// A signal with nothing ready and nobody waiting.
    pub fn new() -> (signal: Self)
        ensures
            signal@ == SignalView::<W>::idle(),
    {
        CompletionSignal { ready: false, waker: None, missed: 0 }
    }

    /// Producer side: a period is ready.
    ///
    /// Sets the flag and clears the waker slot.  The waker that was stored, if
    /// any, is returned: the producer invokes it, once.  With nobody waiting
    /// the flag simply stays set for the next poll.
    pub fn signal_ready(&mut self) -> (woken: Option<W>)
        ensures
            final(self)@ == old(self)@.signalled(),
            woken == old(self)@.woken(),
            final(self)@.well_formed(),
    {
        proof {
            use_type_invariant(&*self);
        }
        let missed: u64 = if self.ready && self.missed < u64::MAX {
            self.missed + 1
        } else {
            self.missed
        };
        let mut previous = CompletionSignal { ready: true, waker: None, missed };
        core::mem::swap(self, &mut previous);
        previous.waker
    }

    /// Consumer side: one attempted resumption.
    ///
    /// If a period is ready it is consumed: the flag is cleared, `waker` is
    /// dropped and the result is `Complete`.  Otherwise `waker` replaces
    /// whatever waker was stored and the result is `Pending`.
    pub fn poll(&mut self, waker: W) -> (outcome: PollOutcome)
        ensures
            final(self)@ == old(self)@.polled(waker),
            outcome == old(self)@.outcome(),
            old(self)@.well_formed(),
            final(self)@.well_formed(),
    {
        proof {
            use_type_invariant(&*self);
        }
        if self.ready {
            self.ready = false;
            PollOutcome::Complete
        } else {
            self.waker = Some(waker);
            PollOutcome::Pending
        }
    }

    /// Whether a period is ready and not yet consumed.
    pub fn is_ready(&self) -> (ready: bool)
        ensures
            ready == self@.ready,
    {
        self.ready
    }

    /// Whether a consumer waits.
    pub fn has_waker(&self) -> (waiting: bool)
        ensures
            waiting == (self@.waker is Some),
    {
        self.waker.is_some()
    }

    /// How many periods were signalled over an unconsumed one.
    pub fn missed(&self) -> (count: u64)
        ensures
            count == self@.missed,
    {
        self.missed
    }

    /// Where the signal stands in its cycle.
    pub fn state(&self) -> (state: SignalState)
        ensures
            state == self@.state(),
            self@.well_formed(),
    {
        proof {
            use_type_invariant(self);
        }
        if self.ready {
            SignalState::Ready
        } else if self.waker.is_some() {
            SignalState::Pending
        } else {
            SignalState::Idle
        }
    }
}

/// No missed wakeup: whatever the signal held, once the producer has
/// signalled, the next poll completes, and it stores no waker.
pub proof fn lemma_no_missed_wakeup<W>(before: SignalView<W>, waker: W)
    ensures
        before.signalled().outcome() == PollOutcome::Complete,
        before.signalled().polled(waker).waker is None,
        before.signalled().polled(waker).state() == SignalState::Idle,
{
}

/// No double fire: a poll that completes clears the flag, so a second poll
/// with no signal in between is pending.
pub proof fn lemma_no_double_fire<W>(before: SignalView<W>, first: W, second: W)
    requires
        before.outcome() == PollOutcome::Complete,
    ensures
        !before.polled(first).ready,
        before.polled(first).outcome() == PollOutcome::Pending,
        before.polled(first).polled(second).outcome() == PollOutcome::Pending,
{
}

/// The cycle of the signal: a poll takes Idle to Pending, a signal takes
/// Pending to Ready and hands out the waker that the poll stored, and a poll
/// takes Ready back to Idle.  Every step keeps the value well formed.
pub proof fn lemma_signal_cycle<W>(before: SignalView<W>, waker: W)
    requires
        before.well_formed(),
    ensures
        before.signalled().well_formed(),
        before.polled(waker).well_formed(),
        before.signalled().state() == SignalState::Ready,
        before.state() == SignalState::Idle ==> before.polled(waker).state()
            == SignalState::Pending,
        before.state() == SignalState::Pending ==> before.woken() is Some,
        before.polled(waker).state() == SignalState::Pending ==> before.polled(waker).woken()
            == Some(waker),
        before.state() == SignalState::Ready ==> before.polled(waker).state() == SignalState::Idle,
{
}

/// A stored waker is handed out at most once: right after a signal the slot
/// is empty, so a second signal hands out nothing.
pub proof fn lemma_waker_handed_out_once<W>(before: SignalView<W>)
    ensures
        before.signalled().woken() is None,
        before.signalled().signalled().ready,
{
}

} // verus!
