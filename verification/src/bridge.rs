//! The completion bridge: adapts a single-shot, callback-driven completion
//! signal into an awaitable, consumable-once outcome. An unverified driver
//! owns the callback registration and the suspension; this model decides
//! what each event does to the bridge and what an await returns. The same
//! bridge may be registered for several distinct engine events: whichever
//! fires first resolves it, and the firing is consumed exactly once — a
//! later event on the same callback is observed by a second registration,
//! never by a second resolution.

use vstd::prelude::*;

use crate::StoreError;

verus! {

/// Lifecycle of one completion bridge.
#[derive(Clone, Copy, Debug, PartialEq, Eq, Structural)]
pub enum BridgeState {
    /// Registered; no event has fired yet.
    Waiting,
    /// An event fired and nobody has consumed it yet.
    Fired,
    /// The firing was consumed by an await.
    Consumed,
    /// The bridge was dropped before any event fired; awaiting it fails.
    Dropped,
}

/// A single-resolution awaitable completion signal.
pub struct Bridge {
    state: BridgeState,
}

impl Bridge {
    /// The bridge's current lifecycle state.
    pub closed spec fn state(&self) -> BridgeState {
        self.state
    }

    /// A freshly registered bridge.
    pub fn new() -> (b: Bridge)
        ensures
            b.state() is Waiting,
    {
        Bridge { state: BridgeState::Waiting }
    }

    /// An engine event fires the callback: the first event resolves the
    /// bridge; any later event changes nothing.
    pub fn fire(&mut self)
        ensures
            final(self).state() == (if old(self).state() is Waiting {
                BridgeState::Fired
            } else {
                old(self).state()
            }),
    {
        if self.state == BridgeState::Waiting {
            self.state = BridgeState::Fired;
        }
    }

    /// The bridge is dropped before any event fired: a pending await, or any
    /// later one, fails with a cancellation error.
    pub fn abandon(&mut self)
        ensures
            final(self).state() == (if old(self).state() is Waiting {
                BridgeState::Dropped
            } else {
                old(self).state()
            }),
    {
        if self.state == BridgeState::Waiting {
            self.state = BridgeState::Dropped;
        }
    }

    /// One polling step of an await: `None` while nothing has fired (the
    /// driver suspends and polls again), the resolution exactly once after a
    /// firing, a cancellation error once the bridge was abandoned.
    pub fn poll(&mut self) -> (r: Option<Result<(), StoreError>>)
        ensures
            match old(self).state() {
                BridgeState::Waiting => r is None && final(self).state() is Waiting,
                BridgeState::Fired => r == Some(Ok::<(), StoreError>(()))
                    && final(self).state() is Consumed,
                BridgeState::Consumed => r is None && final(self).state() is Consumed,
                BridgeState::Dropped => r == Some(Err::<(), StoreError>(StoreError::Cancelled))
                    && final(self).state() is Dropped,
            },
    {
        match self.state {
            BridgeState::Waiting => None,
            BridgeState::Fired => {
                self.state = BridgeState::Consumed;
                Some(Ok(()))
            },
            BridgeState::Consumed => None,
            BridgeState::Dropped => Some(Err(StoreError::Cancelled)),
        }
    }
}

} // verus!
