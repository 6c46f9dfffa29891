//! A poll-based change signal.
//!
//! One `ChangeSignal` stands for the stream of change notifications of a
//! single watched file.  The embedding program records each notification it
//! receives from its watcher; the session controller drains them one at a
//! time through [`ChangeSignal::poll`].  Events are drained, never peeked:
//! each recorded event makes exactly one later `poll` return `true`.
//! A watcher that dies silently simply records nothing more, so polling
//! degrades to `false` rather than to an error.

use vstd::prelude::*;

verus! {

/// Pending change notifications for one watched path, drained by polling.
pub struct ChangeSignal {
    /// How many recorded events have not been drained yet.
    pub pending: u64,
}

/// The signal state after one more change notification is recorded.
pub open spec fn signal_recorded(s: ChangeSignal) -> ChangeSignal {
    ChangeSignal { pending: if s.pending == u64::MAX { s.pending } else { (s.pending + 1) as u64 } }
}

/// What one poll returns: `true` exactly when an event is pending.
pub open spec fn signal_poll_result(s: ChangeSignal) -> bool {
    s.pending > 0
}

/// The signal state after one poll: one pending event is consumed.
pub open spec fn signal_polled(s: ChangeSignal) -> ChangeSignal {
    ChangeSignal { pending: if s.pending > 0 { (s.pending - 1) as u64 } else { 0 } }
}

impl ChangeSignal {
    /// A fresh signal with no pending events.
    pub fn new() -> (s: Self)
        ensures
            s.pending == 0,
    {
        ChangeSignal { pending: 0 }
    }

    /// Record one change notification received from the watcher.
    pub fn record_event(&mut self)
        ensures
            *final(self) == signal_recorded(*old(self)),
    {
        if self.pending < u64::MAX {
            self.pending = self.pending + 1;
        }
    }

    /// Drain one pending event, if any.  Non-blocking; returns `true` at
    /// most once per recorded event.
    pub fn poll(&mut self) -> (changed: bool)
        ensures
            changed == signal_poll_result(*old(self)),
            *final(self) == signal_polled(*old(self)),
    {
        if self.pending > 0 {
            self.pending = self.pending - 1;
            true
        } else {
            false
        }
    }
}

/// After a write is recorded on a quiet signal, `poll` answers `true`
/// exactly once: the first poll reports the change and the next one is
/// `false` again until another write is recorded.
pub proof fn lemma_poll_true_once_per_event(s: ChangeSignal)
    requires
        s.pending == 0,
    ensures
        signal_poll_result(signal_recorded(s)),
        !signal_poll_result(signal_polled(signal_recorded(s))),
{
}

} // verus!
