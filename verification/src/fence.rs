//! The fence primitive: a one-shot synchronization token with a fixed
//! expiry deadline.
//!
//! A fence is pending from creation until it is either explicitly
//! signaled or its deadline elapses, whichever comes first; the two
//! transitions race and exactly one wins.  Either winner wakes the
//! fence's waiters exactly once; the terminal state records which
//! transition won, so that a late explicit signal can be reported as
//! "already expired" rather than "already signaled".

use vstd::prelude::*;

use crate::{Error, FENCE_TIMEOUT_MS};

verus! {

/// State of a one-shot fence: pending until explicitly signaled or
/// automatically expired; the terminal states never change again.
#[derive(Clone, Copy, Debug, PartialEq, Eq, Structural)]
pub enum FenceState {
    Pending,
    Signaled,
    Expired,
}

/// A one-shot synchronization token.  `wakes` counts how many times the
/// fence has woken its waiters; a well-formed fence wakes them exactly
/// once, on its single transition out of `Pending`.
#[derive(Clone, Copy, Debug, PartialEq, Eq, Structural)]
pub struct Fence {
    pub state: FenceState,
    pub deadline: u64,
    pub wakes: u64,
}

/// The fence as the expiry timer leaves it when it fires at `now`: a
/// pending fence whose deadline has been reached transitions to expired
/// and wakes its waiters; any other fence is left untouched.
pub open spec fn expire_at(f: Fence, now: u64) -> Fence {
    if f.state is Pending && f.deadline <= now {
        (Fence { state: FenceState::Expired, wakes: (f.wakes + 1) as u64, ..f })
    } else {
        f
    }
}

impl Fence {
    /// A fence is well formed when its wake count matches its state:
    /// no wake has happened while it is pending, and exactly one has
    /// happened once it is terminal.
    pub open spec fn wf(self) -> bool {
        self.wakes == if self.state is Pending {
            0int
        } else {
            1int
        }
    }

    /// Whether the fence has reached a terminal state (signaled or expired).
    pub open spec fn is_terminal(self) -> bool {
        !(self.state is Pending)
    }

    /// A fresh pending fence whose deadline lies the fixed timeout after `now`.
    pub fn create(now: u64) -> (f: Fence)
        requires
            now + FENCE_TIMEOUT_MS <= u64::MAX,
        ensures
            f == (Fence {
                state: FenceState::Pending,
                deadline: (now + FENCE_TIMEOUT_MS) as u64,
                wakes: 0,
            }),
            f.wf(),
    {
        Fence { state: FenceState::Pending, deadline: now + FENCE_TIMEOUT_MS, wakes: 0 }
    }

    /// Non-blocking state test with no side effect: true once the fence
    /// is signaled or expired.
    pub fn is_signaled(&self) -> (r: bool)
        ensures
            r == self.is_terminal(),
    {
        !matches!(self.state, FenceState::Pending)
    }

    /// Explicit signal: transitions pending to signaled exactly once and
    /// wakes the waiters.  On an already-terminal fence nothing changes
    /// and no second wake occurs; the error reports which terminal state
    /// won the race.
    pub fn signal(&mut self) -> (r: Result<(), Error>)
        requires
            old(self).wf(),
        ensures
            final(self).wf(),
            old(self).state is Pending ==> r is Ok && *final(self) == (Fence {
                state: FenceState::Signaled,
                wakes: (old(self).wakes + 1) as u64,
                ..*old(self)
            }),
            old(self).state is Signaled ==> r == Err::<(), Error>(Error::InvalidArgument)
                && *final(self) == *old(self),
            old(self).state is Expired ==> r == Err::<(), Error>(Error::TimedOut) && *final(self)
                == *old(self),
            r is Err <==> old(self).is_terminal(),
    {
        match self.state {
            FenceState::Pending => {
                self.state = FenceState::Signaled;
                self.wakes = self.wakes + 1;
                Ok(())
            },
            FenceState::Signaled => Err(Error::InvalidArgument),
            FenceState::Expired => Err(Error::TimedOut),
        }
    }

    /// The expiry-timer path: at or past the deadline a still-pending
    /// fence transitions to expired and wakes the waiters exactly once,
    /// like an explicit signal but with the expired flag preserved.
    pub fn expire(&mut self, now: u64)
        requires
            old(self).wf(),
        ensures
            *final(self) == expire_at(*old(self), now),
            final(self).wf(),
    {
        if matches!(self.state, FenceState::Pending) && self.deadline <= now {
            self.state = FenceState::Expired;
            self.wakes = self.wakes + 1;
        }
    }
}

} // verus!
