use vstd::prelude::*;

use crate::error::Error;

verus! {

/// Where a bridged operation stands in its race against the interrupt.
#[derive(Debug, Clone, Copy, PartialEq, Eq)]
pub enum GateState {
    Running,
    Completed,
    Cancelled,
}

/// Which side of the race fired first.
pub enum Race<T> {
    /// The operation finished with this outcome.
    Finished(T),
    /// The interrupt fired first; the operation was dropped.
    Interrupted,
}

/// The state a gate reaches when an event arrives: the first event decides,
/// and a decided gate never changes again.
pub open spec fn gate_next(s: GateState, interrupted: bool) -> GateState {
    match s {
        GateState::Running => if interrupted {
            GateState::Cancelled
        } else {
            GateState::Completed
        },
        _ => s,
    }
}

/// The race between one operation and the external interrupt. Single use:
/// `Running`, then `Completed` or `Cancelled` for good.
#[derive(Debug)]
pub struct CancellationGate {
    state: GateState,
}

impl CancellationGate {
    pub closed spec fn state_view(&self) -> GateState {
        self.state
    }

    pub fn new() -> (r: Self)
        ensures
            r.state_view() == GateState::Running,
    {
        CancellationGate { state: GateState::Running }
    }

    pub fn state(&self) -> (r: GateState)
        ensures
            r == self.state_view(),
    {
        self.state
    }

    /// Settles the race with its first event and gives the caller's result:
    /// the operation's own outcome, or a cancellation error. A gate that was
    /// already decided keeps its state and reports a cancellation.
    pub fn settle<T>(&mut self, race: Race<Result<T, Error>>) -> (r: Result<T, Error>)
        ensures
            final(self).state_view() == gate_next(old(self).state_view(), race is Interrupted),
            old(self).state_view() == GateState::Running ==> r == match race {
                Race::Finished(x) => x,
                Race::Interrupted => Err(Error::Cancelled),
            },
            old(self).state_view() != GateState::Running ==> r == Err::<T, Error>(Error::Cancelled),
    {
        match self.state {
            GateState::Running => {},
            _ => return Err(Error::Cancelled),
        }
        match race {
            Race::Finished(x) => {
                self.state = GateState::Completed;
                x
            },
            Race::Interrupted => {
                self.state = GateState::Cancelled;
                Err(Error::Cancelled)
            },
        }
    }
}

} // verus!
