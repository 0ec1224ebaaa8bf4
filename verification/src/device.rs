//! The device: the shared state every client session operates against.
//!
//! It owns the fence arena — the authoritative store of every fence ever
//! created, so that buffer consumers can still observe a fence's
//! signaled state after the owning client consumed its handle — and the
//! set of registered buffers, each with its reservation object.  The
//! expiry timer is modeled by `expire_due`, which fires every deadline
//! that has been reached.

use vstd::prelude::*;

use crate::fence::{expire_at, Fence, FenceState};
use crate::resv::{ResvEntry, ResvObject};
use crate::{Error, Usage, FENCE_TIMEOUT_MS};

verus! {

/// A shared buffer as this subsystem sees it: its client-visible handle
/// and its reservation object.
pub struct Buffer {
    pub handle: u32,
    pub resv: ResvObject,
}

/// The shared device state: the fence arena and the registered buffers.
pub struct Device {
    pub fences: Vec<Fence>,
    pub buffers: Vec<Buffer>,
}

/// The arena as the expiry timer leaves it when it fires at `now`:
/// every pending fence whose deadline has been reached is expired.
pub open spec fn fences_after_expiry(s: Seq<Fence>, now: u64) -> Seq<Fence> {
    s.map_values(|f: Fence| expire_at(f, now))
}

/// Whether a buffer with the given handle stands in `bufs`.
pub open spec fn seq_has_buffer(bufs: Seq<Buffer>, handle: u32) -> bool {
    exists|b: int| 0 <= b < bufs.len() && bufs[b].handle == handle
}

/// The index in `bufs` of the buffer registered under `handle`
/// (meaningful only when `seq_has_buffer` holds; unique when handles
/// are unique).
pub open spec fn seq_buffer_at(bufs: Seq<Buffer>, handle: u32) -> int {
    choose|b: int| 0 <= b < bufs.len() && bufs[b].handle == handle
}

/// Whether some buffer's reservation object holds an entry for fence
/// `f`: the fence has been published and is visible to consumers.
pub open spec fn published_in(bufs: Seq<Buffer>, f: usize) -> bool {
    exists|b: int, e: int|
        0 <= b < bufs.len() && 0 <= e < bufs[b].resv.entries@.len() && bufs[b].resv.entries@[e].fence
            == f
}

/// How many of the first `n` fences of `s` are still pending.
pub open spec fn pending_upto(s: Seq<Fence>, n: int) -> nat
    decreases n,
{
    if n <= 0 {
        0
    } else {
        pending_upto(s, n - 1) + if s[n - 1].state is Pending {
            1nat
        } else {
            0nat
        }
    }
}

impl Device {
    /// Device well-formedness: every fence is well formed, every
    /// reservation entry points into the arena, and buffer handles are
    /// unique.
    pub open spec fn wf(self) -> bool {
        &&& forall|i: int| 0 <= i < self.fences@.len() ==> self.fences@[i].wf()
        &&& forall|b: int|
            0 <= b < self.buffers@.len() ==> self.buffers@[b].resv.wf(self.fences@.len() as int)
        &&& forall|b1: int, b2: int|
            0 <= b1 < self.buffers@.len() && 0 <= b2 < self.buffers@.len() && b1 != b2
                ==> self.buffers@[b1].handle != self.buffers@[b2].handle
    }

    /// Whether a buffer with the given handle is registered.
    pub open spec fn has_buffer(self, handle: u32) -> bool {
        seq_has_buffer(self.buffers@, handle)
    }

    /// The index of the buffer registered under `handle` (meaningful
    /// only when `has_buffer` holds; unique when the device is well
    /// formed).
    pub open spec fn buffer_at(self, handle: u32) -> int {
        seq_buffer_at(self.buffers@, handle)
    }

    /// How many fences in the arena are still pending.
    pub open spec fn pending_count(self) -> nat {
        pending_upto(self.fences@, self.fences@.len() as int)
    }

    /// A device with no buffer registered and no fence created.
    pub fn new() -> (d: Device)
        ensures
            d.wf(),
            d.fences@.len() == 0,
            d.buffers@.len() == 0,
    {
        Device { fences: Vec::new(), buffers: Vec::new() }
    }

    /// Register a shared buffer under `handle` with an empty reservation
    /// object.  A handle already in use is refused, leaving the device
    /// unchanged.
    pub fn register_buffer(&mut self, handle: u32) -> (r: Result<(), Error>)
        requires
            old(self).wf(),
        ensures
            final(self).wf(),
            final(self).fences@ == old(self).fences@,
            r is Ok <==> !old(self).has_buffer(handle),
            r is Err ==> r == Err::<(), Error>(Error::InvalidArgument) && *final(self)
                == *old(self),
            r is Ok ==> final(self).buffers@.len() == old(self).buffers@.len() + 1
                && final(self).buffers@.last().handle == handle
                && final(self).buffers@.last().resv.entries@.len() == 0 && (forall|b: int|
                0 <= b < old(self).buffers@.len() ==> final(self).buffers@[b]
                    == old(self).buffers@[b]),
            final(self).has_buffer(handle),
    {
        if self.find_buffer(handle).is_some() {
            return Err(Error::InvalidArgument);
        }
        self.buffers.push(Buffer { handle, resv: ResvObject::new() });
        Ok(())
    }

    /// Resolve a buffer handle to its index, or nothing when the handle
    /// is unknown.
    pub fn find_buffer(&self, handle: u32) -> (r: Option<usize>)
        requires
            self.wf(),
        ensures
            r is Some <==> self.has_buffer(handle),
            r matches Some(b) ==> 0 <= b < self.buffers@.len() && self.buffers@[b as int].handle
                == handle && b as int == self.buffer_at(handle),
    {
        let n = self.buffers.len();
        let mut i: usize = 0;
        while i < n
            invariant
                self.wf(),
                n == self.buffers@.len(),
                i <= n,
                forall|j: int| 0 <= j < i ==> self.buffers@[j].handle != handle,
            decreases n - i,
        {
            if self.buffers[i].handle == handle {
                return Some(i);
            }
            i = i + 1;
        }
        None
    }

    /// Create a fresh pending fence in the arena, deadline the fixed
    /// timeout after `now`, and return its index.
    pub fn create_fence(&mut self, now: u64) -> (idx: usize)
        requires
            old(self).wf(),
            now + FENCE_TIMEOUT_MS <= u64::MAX,
        ensures
            final(self).wf(),
            idx == old(self).fences@.len(),
            final(self).fences@ == old(self).fences@.push(
                (Fence {
                    state: FenceState::Pending,
                    deadline: (now + FENCE_TIMEOUT_MS) as u64,
                    wakes: 0,
                }),
            ),
            final(self).buffers@ == old(self).buffers@,
    {
        let idx = self.fences.len();
        let f = Fence::create(now);
        self.fences.push(f);
        idx
    }

    /// Non-blocking conflict test against the buffer at index `b`: true
    /// exactly when an outstanding unsignaled fence on it conflicts with
    /// the requested usage.
    pub fn test_buffer_conflict(&self, b: usize, requested: Usage) -> (r: bool)
        requires
            self.wf(),
            b < self.buffers@.len(),
        ensures
            r == self.buffers@[b as int].resv.has_conflict(self.fences@, requested),
    {
        self.buffers[b].resv.test_conflict(&self.fences, requested)
    }

    /// Publish the fence at `f` into the reservation object of the
    /// buffer at index `b` under `usage`, making it visible to every
    /// consumer of that buffer.
    pub fn publish_fence(&mut self, b: usize, f: usize, usage: Usage)
        requires
            old(self).wf(),
            b < old(self).buffers@.len(),
            f < old(self).fences@.len(),
        ensures
            final(self).wf(),
            final(self).fences@ == old(self).fences@,
            final(self).buffers@.len() == old(self).buffers@.len(),
            forall|i: int|
                0 <= i < old(self).buffers@.len() && i != b ==> final(self).buffers@[i]
                    == old(self).buffers@[i],
            final(self).buffers@[b as int].handle == old(self).buffers@[b as int].handle,
            final(self).buffers@[b as int].resv.entries@
                == old(self).buffers@[b as int].resv.entries@.push(ResvEntry { fence: f, usage }),
    {
        let buf = &mut self.buffers[b];
        buf.resv.add_fence(f, usage);
    }

    /// Explicitly signal the fence at `idx`.  A pending fence becomes
    /// signaled and wakes its waiters once; a terminal fence is left
    /// untouched and the error reports which terminal state won.
    pub fn signal_fence(&mut self, idx: usize) -> (r: Result<(), Error>)
        requires
            old(self).wf(),
            idx < old(self).fences@.len(),
        ensures
            final(self).wf(),
            final(self).buffers@ == old(self).buffers@,
            final(self).fences@.len() == old(self).fences@.len(),
            forall|j: int|
                0 <= j < old(self).fences@.len() && j != idx ==> final(self).fences@[j]
                    == old(self).fences@[j],
            old(self).fences@[idx as int].state is Pending ==> r is Ok
                && final(self).fences@[idx as int] == (Fence {
                state: FenceState::Signaled,
                wakes: 1,
                ..old(self).fences@[idx as int]
            }),
            old(self).fences@[idx as int].is_terminal() ==> r is Err && final(self).fences@
                == old(self).fences@,
            old(self).fences@[idx as int].state is Signaled ==> r == Err::<(), Error>(
                Error::InvalidArgument,
            ),
            old(self).fences@[idx as int].state is Expired ==> r == Err::<(), Error>(
                Error::TimedOut,
            ),
            r is Err <==> old(self).fences@[idx as int].is_terminal(),
    {
        let mut f = self.fences[idx];
        let r = f.signal();
        self.fences[idx] = f;
        proof {
            if old(self).fences@[idx as int].is_terminal() {
                assert(final(self).fences@ =~= old(self).fences@);
            }
        }
        r
    }

    /// Non-blocking test of the fence at `idx`: true once it is
    /// signaled or expired.
    pub fn fence_is_signaled(&self, idx: usize) -> (r: bool)
        requires
            idx < self.fences@.len(),
        ensures
            r == self.fences@[idx as int].is_terminal(),
    {
        self.fences[idx].is_signaled()
    }

    /// The expiry timer: fire every deadline that has been reached,
    /// expiring (and waking exactly once) each pending fence whose
    /// deadline lies at or before `now`.  Buffers are untouched.
    pub fn expire_due(&mut self, now: u64)
        requires
            old(self).wf(),
        ensures
            final(self).wf(),
            final(self).fences@ == fences_after_expiry(old(self).fences@, now),
            final(self).buffers@ == old(self).buffers@,
    {
        let n = self.fences.len();
        let mut i: usize = 0;
        while i < n
            invariant
                old(self).wf(),
                n == self.fences@.len(),
                n == old(self).fences@.len(),
                i <= n,
                self.buffers@ == old(self).buffers@,
                forall|j: int|
                    0 <= j < i ==> self.fences@[j] == expire_at(old(self).fences@[j], now),
                forall|j: int| i <= j < n ==> self.fences@[j] == old(self).fences@[j],
            decreases n - i,
        {
            let mut f = self.fences[i];
            f.expire(now);
            self.fences[i] = f;
            i = i + 1;
        }
        proof {
            assert(final(self).fences@ =~= fences_after_expiry(old(self).fences@, now));
        }
    }

    /// How many fences in the arena are still pending: the observable
    /// measure that no aborted attach leaks a pending fence.
    pub fn pending_fences(&self) -> (n: usize)
        ensures
            n == self.pending_count(),
    {
        let total = self.fences.len();
        let mut count: usize = 0;
        let mut i: usize = 0;
        while i < total
            invariant
                total == self.fences@.len(),
                i <= total,
                count == pending_upto(self.fences@, i as int),
                count <= i,
            decreases total - i,
        {
            if !self.fences[i].is_signaled() {
                count = count + 1;
            }
            i = i + 1;
        }
        count
    }
}

} // verus!
