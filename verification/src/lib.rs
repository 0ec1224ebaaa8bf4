//! A software-only fence subsystem for shared graphics buffers.
//!
//! Clients attach one-shot synchronization fences to shared buffers,
//! tagged with the access (read or write) the fence covers.  A new
//! attachment is refused while an outstanding unsignaled fence on the
//! same buffer conflicts with the requested access.  Clients must
//! signal each fence explicitly within a fixed window; a fence that is
//! not signaled in time expires automatically, and a late signal
//! attempt reports that the fence timed out.
//!
//! Time is explicit: operations take the current time in milliseconds,
//! and the expiry timer is modeled by firing every elapsed deadline
//! before a request is processed (and on demand, through the device).
//! This keeps the signal-versus-expiry race provable: whichever
//! transition happens first wins, and the loser never wakes waiters a
//! second time.

use vstd::prelude::*;

pub mod fence;
pub mod handle_table;
pub mod resv;
pub mod device;
pub mod session;
pub mod laws;

verus! {

/// The only recognized bit in the attach usage bitmask: the fence covers
/// write access to the buffer.  All other bits must be clear.
pub const USAGE_WRITE_BIT: u32 = 1;

/// Fences expire automatically this many milliseconds after creation.
/// Clients must signal within this window or their signal attempt
/// reports a timeout.
pub const FENCE_TIMEOUT_MS: u64 = 10000;

/// Status of a failed operation, reported synchronously to the caller.
#[derive(Clone, Copy, Debug, PartialEq, Eq, Structural)]
pub enum Error {
    /// Malformed request: unrecognized usage bits or a nonzero reserved field.
    InvalidArgument,
    /// Unknown buffer handle, or unknown or already-consumed fence id.
    NotFound,
    /// A conflicting unsignaled fence is already attached to the buffer.
    Busy,
    /// The fence expired before the explicit signal arrived.
    TimedOut,
    /// Allocation failed at the handle-table level.
    ResourceExhausted,
}

/// The access a fence covers on its buffer.
#[derive(Clone, Copy, Debug, PartialEq, Eq, Structural)]
pub enum Usage {
    Read,
    Write,
}

/// Whether an existing fence's usage overlaps a requested usage in a way
/// that requires ordering: write-after-read, write-after-write, or
/// read-after-write.  Two reads never conflict.
pub open spec fn conflicts(existing: Usage, requested: Usage) -> bool {
    existing is Write || requested is Write
}

impl Error {
    /// The negative status code this error is reported as at the request
    /// boundary (success is reported as zero).
    pub fn status_code(&self) -> (c: i32)
        ensures
            c == match *self {
                Error::InvalidArgument => -22,
                Error::NotFound => -2,
                Error::Busy => -16,
                Error::TimedOut => -110,
                Error::ResourceExhausted => -12,
            },
    {
        match *self {
            Error::InvalidArgument => -22,
            Error::NotFound => -2,
            Error::Busy => -16,
            Error::TimedOut => -110,
            Error::ResourceExhausted => -12,
        }
    }
}

} // verus!
