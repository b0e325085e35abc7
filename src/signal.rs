use vstd::prelude::*;

verus! {

/// How a cancellable wait ended.
#[derive(Clone, Copy, Debug, PartialEq, Eq, Structural)]
pub enum WaitOutcome {
    /// The full interval went by.
    Elapsed,
    /// The cancel signal fired first.
    Cancelled,
}

/// The answer to one look at a wait in progress.
#[derive(Clone, Copy, Debug, PartialEq, Eq, Structural)]
pub enum WaitPoll {
    /// Neither the interval nor the signal has resolved the wait: keep waiting.
    Pending,
    /// The wait is over.
    Ready(WaitOutcome),
}

/// A single-slot wake notification.
///
/// Notifying sets the slot; several notifications before anyone looks coalesce
/// into one. A waiter that looks at the slot consumes what it finds, so a
/// notification raised before the wait began still ends that wait at once.
#[derive(Clone, Copy, Debug, PartialEq, Eq, Structural)]
pub struct CancelSignal {
    pub pending: bool,
}

impl CancelSignal {
    /// A signal with nothing pending.
    pub fn new() -> (r: CancelSignal)
        ensures
            !r.pending,
    {
        CancelSignal { pending: false }
    }

    /// The signal after one raise.
    pub open spec fn notified(self) -> CancelSignal {
        CancelSignal { pending: true }
    }

    /// The signal after a look at a wait: whatever was pending is consumed.
    pub open spec fn after_poll(self) -> CancelSignal {
        CancelSignal { pending: false }
    }

    /// Raises the signal. Coalesces with a notification not yet consumed.
    pub fn notify(&mut self)
        ensures
            *final(self) == old(self).notified(),
    {
        self.pending = true;
    }

    /// Drops a notification not yet consumed.
    pub fn clear(&mut self)
        ensures
            !final(self).pending,
    {
        self.pending = false;
    }

    /// Whether a notification is waiting to be consumed.
    pub fn is_pending(&self) -> (r: bool)
        ensures
            r == self.pending,
    {
        self.pending
    }

    /// The outcome of a look at a wait, given whether its interval has run out.
    pub open spec fn poll_spec(self, elapsed: bool) -> WaitPoll {
        if self.pending {
            WaitPoll::Ready(WaitOutcome::Cancelled)
        } else if elapsed {
            WaitPoll::Ready(WaitOutcome::Elapsed)
        } else {
            WaitPoll::Pending
        }
    }

    /// Looks at a wait in progress; `elapsed` tells whether its interval has
    /// run out. A pending notification wins and is consumed, so a signal
    /// raised before the wait began ends it on the first look.
    pub fn poll_wait(&mut self, elapsed: bool) -> (r: WaitPoll)
        ensures
            r == old(self).poll_spec(elapsed),
            *final(self) == old(self).after_poll(),
            old(self).pending ==> r == WaitPoll::Ready(WaitOutcome::Cancelled),
            !old(self).pending && !elapsed ==> r == WaitPoll::Pending,
    {
        if self.pending {
            self.pending = false;
            WaitPoll::Ready(WaitOutcome::Cancelled)
        } else if elapsed {
            WaitPoll::Ready(WaitOutcome::Elapsed)
        } else {
            WaitPoll::Pending
        }
    }
}

} // verus!
