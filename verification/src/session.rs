//! A client session: one handle table, plus the two request handlers a
//! client drives the device with.
//!
//! `attach` creates a fence, checks the target buffer for conflicting
//! in-flight access, publishes the fence into the buffer's reservation
//! object, and only then hands the client an id for it.  `signal`
//! consumes an id and explicitly signals its fence, unless the fence
//! already expired.  Closing the session drains the table, signaling
//! every fence still pending so that no published fence is abandoned
//! unsignaled.

use vstd::prelude::*;

use crate::device::{fences_after_expiry, Device};
use crate::fence::{expire_at, Fence, FenceState};
use crate::handle_table::{alloc_ok, table_full, HandleTable};
use crate::resv::ResvEntry;
use crate::{conflicts, Error, Usage, FENCE_TIMEOUT_MS, USAGE_WRITE_BIT};

verus! {

/// A client session: owns the handle table that is the single source of
/// truth for which fences this client may still signal.
pub struct Session {
    pub table: HandleTable,
}

/// The attach request's argument check: only the write bit may be set
/// in the usage bitmask, and the reserved field must be zero.
pub open spec fn valid_attach_args(flags: u32, pad: u32) -> bool {
    flags & !USAGE_WRITE_BIT == 0 && pad == 0
}

/// The usage an attach request asks for: write access when the write
/// bit is set, read access otherwise.
pub open spec fn requested_usage(flags: u32) -> Usage {
    if flags & USAGE_WRITE_BIT != 0 {
        Usage::Write
    } else {
        Usage::Read
    }
}

/// The fence an attach call creates at `now`, while still pending.
pub open spec fn fresh_pending(now: u64) -> Fence {
    Fence { state: FenceState::Pending, deadline: (now + FENCE_TIMEOUT_MS) as u64, wakes: 0 }
}

/// The same fence after an aborted attach signaled it so that it cannot
/// linger as a dangling pending fence.
pub open spec fn fresh_aborted(now: u64) -> Fence {
    Fence { state: FenceState::Signaled, deadline: (now + FENCE_TIMEOUT_MS) as u64, wakes: 1 }
}

/// Everything an attach call does, as a relation between the states
/// before and after it, the request, and the result.  The expiry timer
/// fires for `now` before the request is processed, so the pre-state
/// fences appear here behind `fences_after_expiry`.
pub open spec fn attach_post(
    pre_s: Session,
    pre_d: Device,
    post_s: Session,
    post_d: Device,
    handle: u32,
    flags: u32,
    pad: u32,
    now: u64,
    r: Result<usize, Error>,
) -> bool {
    let ef = fences_after_expiry(pre_d.fences@, now);
    let req = requested_usage(flags);
    let b = pre_d.buffer_at(handle);
    let fidx = pre_d.fences@.len();
    if !valid_attach_args(flags, pad) {
        // Malformed request: rejected before anything happens.
        &&& r == Err::<usize, Error>(Error::InvalidArgument)
        &&& post_d == pre_d
        &&& post_s == pre_s
    } else if !pre_d.has_buffer(handle) {
        // Unknown buffer handle: nothing created, nothing allocated.
        &&& r == Err::<usize, Error>(Error::NotFound)
        &&& post_d.fences@ == ef
        &&& post_d.buffers@ == pre_d.buffers@
        &&& post_s == pre_s
    } else if pre_d.buffers@[b].resv.has_conflict(ef, req) {
        // Conflicting unsignaled fence: the created fence is signaled at
        // once so it does not leak, and no handle is allocated.
        &&& r == Err::<usize, Error>(Error::Busy)
        &&& post_d.fences@ == ef.push(fresh_aborted(now))
        &&& post_d.buffers@ == pre_d.buffers@
        &&& post_s == pre_s
    } else {
        // The fence is published into the buffer's reservation object…
        &&& post_d.buffers@.len() == pre_d.buffers@.len()
        &&& forall|i: int|
            0 <= i < pre_d.buffers@.len() && i != b ==> post_d.buffers@[i] == pre_d.buffers@[i]
        &&& post_d.buffers@[b].handle == pre_d.buffers@[b].handle
        &&& post_d.buffers@[b].resv.entries@ == pre_d.buffers@[b].resv.entries@.push(
            ResvEntry { fence: fidx as usize, usage: req },
        )
        &&& if table_full(pre_s.table) {
            // …but the handle table is full: the now-unreachable fence
            // is signaled rather than leaked, and the failure reported.
            &&& r == Err::<usize, Error>(Error::ResourceExhausted)
            &&& post_d.fences@ == ef.push(fresh_aborted(now))
            &&& post_s == pre_s
        } else {
            // …and the client gets the lowest free id for it.
            &&& r is Ok
            &&& alloc_ok(pre_s.table, post_s.table, r->Ok_0 as int, fidx as usize)
            &&& post_d.fences@ == ef.push(fresh_pending(now))
        }
    }
}

/// Everything a signal call does, as a relation between the states
/// before and after it, the request, and the result.  The expiry timer
/// fires for `now` before the request is processed.
pub open spec fn signal_post(
    pre_s: Session,
    pre_d: Device,
    post_s: Session,
    post_d: Device,
    id: usize,
    flags: u32,
    now: u64,
    r: Result<(), Error>,
) -> bool {
    let ef = fences_after_expiry(pre_d.fences@, now);
    let slots = pre_s.table.slots@;
    if flags != 0 {
        // Nonzero reserved flags: rejected before anything happens.
        &&& r == Err::<(), Error>(Error::InvalidArgument)
        &&& post_d == pre_d
        &&& post_s == pre_s
    } else if id >= slots.len() {
        // Id outside the allocated range.
        &&& r == Err::<(), Error>(Error::NotFound)
        &&& post_d.fences@ == ef
        &&& post_d.buffers@ == pre_d.buffers@
        &&& post_s == pre_s
    } else if slots[id as int] is None {
        // Id already consumed: a second signal on the same id fails.
        &&& r == Err::<(), Error>(Error::NotFound)
        &&& post_d.fences@ == ef
        &&& post_d.buffers@ == pre_d.buffers@
        &&& post_s.table.slots@ == slots.update(id as int, None)
        &&& post_s.table.cap == pre_s.table.cap
    } else {
        // A live fence: it is consumed from the table either way, and
        // signaled only if expiry did not win first.
        let f = slots[id as int]->0 as int;
        &&& post_s.table.slots@ == slots.update(id as int, None)
        &&& post_s.table.cap == pre_s.table.cap
        &&& post_d.buffers@ == pre_d.buffers@
        &&& if ef[f].is_terminal() {
            r == Err::<(), Error>(Error::TimedOut) && post_d.fences@ == ef
        } else {
            r == Ok::<(), Error>(()) && post_d.fences@ == ef.update(
                f,
                (Fence { state: FenceState::Signaled, wakes: 1, deadline: ef[f].deadline }),
            )
        }
    }
}

impl Session {
    /// Session well-formedness against the device it operates on: the
    /// table respects its limit, every live slot points into the fence
    /// arena, and no two slots hold the same fence.
    pub open spec fn wf(self, dev: Device) -> bool {
        &&& self.table.wf()
        &&& forall|i: int|
            0 <= i < self.table.slots@.len() && self.table.slots@[i] is Some
                ==> self.table.slots@[i]->0 < dev.fences@.len()
        &&& forall|i: int, j: int|
            0 <= i < self.table.slots@.len() && 0 <= j < self.table.slots@.len() && i != j
                && self.table.slots@[i] is Some && self.table.slots@[j] is Some
                ==> self.table.slots@[i]->0 != self.table.slots@[j]->0
    }

    /// Open a session: an empty handle table, bounded by the per-session
    /// handle limit `cap`.
    pub fn open(cap: usize) -> (s: Session)
        ensures
            s.table.cap == cap,
            s.table.slots@.len() == 0,
            forall|dev: Device| s.wf(dev),
    {
        Session { table: HandleTable::new(cap) }
    }

    /// The reserved protocol probe: always rejected, by design.
    pub fn dummy(&self) -> (r: Result<u32, Error>)
        ensures
            r == Err::<u32, Error>(Error::InvalidArgument),
    {
        Err(Error::InvalidArgument)
    }

    /// Create a fence, attach it to the buffer registered under
    /// `handle`, and return the id the client must later signal it by.
    ///
    /// Rejects unrecognized usage bits or a nonzero reserved field with
    /// invalid-argument and an unknown buffer handle with not-found;
    /// reports busy when an outstanding unsignaled fence on the buffer
    /// conflicts with the requested usage, and resource-exhausted when
    /// the handle table is full.  Every aborted attach signals the fence
    /// it created, so no pending fence is ever leaked.
    pub fn attach(
        &mut self,
        dev: &mut Device,
        handle: u32,
        flags: u32,
        pad: u32,
        now: u64,
    ) -> (r: Result<usize, Error>)
        requires
            old(self).wf(*old(dev)),
            old(dev).wf(),
            now + FENCE_TIMEOUT_MS <= u64::MAX,
        ensures
            final(dev).wf(),
            final(self).wf(*final(dev)),
            attach_post(
                *old(self),
                *old(dev),
                *final(self),
                *final(dev),
                handle,
                flags,
                pad,
                now,
                r,
            ),
    {
        if (flags & !USAGE_WRITE_BIT) != 0 || pad != 0 {
            return Err(Error::InvalidArgument);
        }
        dev.expire_due(now);
        let b = match dev.find_buffer(handle) {
            None => {
                return Err(Error::NotFound);
            },
            Some(b) => b,
        };
        let fidx = dev.create_fence(now);
        let usage = if (flags & USAGE_WRITE_BIT) != 0 {
            Usage::Write
        } else {
            Usage::Read
        };
        proof {
            lemma_conflict_ignores_fresh_fence(
                dev.buffers@[b as int].resv,
                fences_after_expiry(old(dev).fences@, now),
                fresh_pending(now),
                usage,
            );
        }
        if dev.test_buffer_conflict(b, usage) {
            let _ = dev.signal_fence(fidx);
            proof {
                assert(dev.fences@ =~= fences_after_expiry(old(dev).fences@, now).push(
                    fresh_aborted(now),
                ));
            }
            return Err(Error::Busy);
        }
        dev.publish_fence(b, fidx, usage);
        match self.table.allocate(fidx) {
            Ok(id) => Ok(id),
            Err(_) => {
                let _ = dev.signal_fence(fidx);
                proof {
                    assert(dev.fences@ =~= fences_after_expiry(old(dev).fences@, now).push(
                        fresh_aborted(now),
                    ));
                }
                Err(Error::ResourceExhausted)
            },
        }
    }

    /// Consume fence id `id` and signal its fence, waking every consumer
    /// of the buffer it was attached to.
    ///
    /// Rejects nonzero reserved flags with invalid-argument; an id that
    /// was never allocated or was already consumed fails with not-found.
    /// A fence that expired before this call reports timed-out — the id
    /// is still consumed, and the fence is not woken a second time.
    pub fn signal(&mut self, dev: &mut Device, id: usize, flags: u32, now: u64) -> (r: Result<
        (),
        Error,
    >)
        requires
            old(self).wf(*old(dev)),
            old(dev).wf(),
        ensures
            final(dev).wf(),
            final(self).wf(*final(dev)),
            signal_post(*old(self), *old(dev), *final(self), *final(dev), id, flags, now, r),
    {
        if flags != 0 {
            return Err(Error::InvalidArgument);
        }
        dev.expire_due(now);
        match self.table.replace(id, None) {
            Err(_) => Err(Error::NotFound),
            Ok(None) => Err(Error::NotFound),
            Ok(Some(fidx)) => {
                if dev.fence_is_signaled(fidx) {
                    Err(Error::TimedOut)
                } else {
                    let _ = dev.signal_fence(fidx);
                    proof {
                        let ef = fences_after_expiry(old(dev).fences@, now);
                        assert(dev.fences@ =~= ef.update(
                            fidx as int,
                            (Fence {
                                state: FenceState::Signaled,
                                wakes: 1,
                                deadline: ef[fidx as int].deadline,
                            }),
                        ));
                    }
                    Ok(())
                }
            },
        }
    }

    /// Close the session: drain the handle table, signaling every fence
    /// still pending in it, so that no reservation object is left
    /// pointing at a fence whose only owning reference vanished.  Every
    /// fence the table held is terminal afterwards; fences of other
    /// sessions are touched only by the expiry timer.
    pub fn close(&mut self, dev: &mut Device, now: u64)
        requires
            old(self).wf(*old(dev)),
            old(dev).wf(),
        ensures
            final(dev).wf(),
            final(self).wf(*final(dev)),
            final(self).table.cap == old(self).table.cap,
            final(self).table.slots@.len() == old(self).table.slots@.len(),
            forall|i: int|
                0 <= i < final(self).table.slots@.len() ==> final(self).table.slots@[i] is None,
            final(dev).buffers@ == old(dev).buffers@,
            final(dev).fences@.len() == old(dev).fences@.len(),
            forall|j: int|
                0 <= j < old(dev).fences@.len() ==> final(dev).fences@[j] == (if tabled_below(
                    old(self).table.slots@,
                    old(self).table.slots@.len() as int,
                    j,
                ) {
                    drained(expire_at(old(dev).fences@[j], now))
                } else {
                    expire_at(old(dev).fences@[j], now)
                }),
    {
        dev.expire_due(now);
        let n = self.table.slots.len();
        let mut i: usize = 0;
        while i < n
            invariant
                old(self).wf(*old(dev)),
                old(dev).wf(),
                n == self.table.slots@.len(),
                n == old(self).table.slots@.len(),
                self.table.cap == old(self).table.cap,
                i <= n,
                dev.wf(),
                dev.buffers@ == old(dev).buffers@,
                dev.fences@.len() == old(dev).fences@.len(),
                forall|k: int| 0 <= k < i ==> self.table.slots@[k] is None,
                forall|k: int| i <= k < n ==> self.table.slots@[k] == old(self).table.slots@[k],
                forall|j: int|
                    0 <= j < dev.fences@.len() ==> dev.fences@[j] == (if tabled_below(
                        old(self).table.slots@,
                        i as int,
                        j,
                    ) {
                        drained(expire_at(old(dev).fences@[j], now))
                    } else {
                        expire_at(old(dev).fences@[j], now)
                    }),
            decreases n - i,
        {
            let prev = match self.table.replace(i, None) {
                Ok(p) => p,
                Err(_) => {
                    proof {
                        assert(false);
                    }
                    None
                },
            };
            if let Some(fidx) = prev {
                proof {
                    if tabled_below(old(self).table.slots@, i as int, fidx as int) {
                        let k = choose|k: int|
                            0 <= k < i && old(self).table.slots@[k] is Some && old(
                                self,
                            ).table.slots@[k]->0 == fidx as int;
                        assert(old(self).table.slots@[i as int] is Some);
                        assert(false);
                    }
                }
                if !dev.fence_is_signaled(fidx) {
                    let _ = dev.signal_fence(fidx);
                }
            }
            proof {
                assert forall|j: int| 0 <= j < dev.fences@.len() implies dev.fences@[j] == (
                if tabled_below(old(self).table.slots@, i + 1, j) {
                    drained(expire_at(old(dev).fences@[j], now))
                } else {
                    expire_at(old(dev).fences@[j], now)
                }) by {
                    lemma_tabled_below_step(old(self).table.slots@, i as int, j);
                }
            }
            i = i + 1;
        }
    }
}

/// The fence a drained slot leaves behind on session teardown: a
/// still-pending fence is signaled so that its only owning reference
/// does not vanish while waiters could still block on it; a terminal
/// fence is left as it is.
pub open spec fn drained(f: Fence) -> Fence {
    if f.state is Pending {
        (Fence { state: FenceState::Signaled, wakes: (f.wakes + 1) as u64, ..f })
    } else {
        f
    }
}

/// Whether one of the first `k` slots holds fence `j`.
pub open spec fn tabled_below(slots: Seq<Option<usize>>, k: int, j: int) -> bool {
    exists|i: int| 0 <= i < k && slots[i] is Some && slots[i]->0 == j
}

/// Extending the scanned prefix by one slot finds exactly the fences of
/// the shorter prefix plus whatever slot `k` holds.
pub proof fn lemma_tabled_below_step(slots: Seq<Option<usize>>, k: int, j: int)
    requires
        0 <= k < slots.len(),
    ensures
        tabled_below(slots, k + 1, j) == (tabled_below(slots, k, j) || (slots[k] is Some
            && slots[k]->0 == j)),
{
    if tabled_below(slots, k + 1, j) {
        let i = choose|i: int| 0 <= i < k + 1 && slots[i] is Some && slots[i]->0 == j;
        if i < k {
            assert(tabled_below(slots, k, j));
        }
    }
    if tabled_below(slots, k, j) {
        let i = choose|i: int| 0 <= i < k && slots[i] is Some && slots[i]->0 == j;
        assert(0 <= i < k + 1 && slots[i] is Some && slots[i]->0 == j);
        assert(tabled_below(slots, k + 1, j));
    }
    if slots[k] is Some && slots[k]->0 == j {
        assert(0 <= k < k + 1 && slots[k] is Some && slots[k]->0 == j);
        assert(tabled_below(slots, k + 1, j));
    }
}

/// A fence appended to the arena after the conflict test's entries were
/// published cannot be referenced by those entries, so the test's
/// outcome is the same with or without it.
pub proof fn lemma_conflict_ignores_fresh_fence(
    resv: crate::resv::ResvObject,
    fences: Seq<Fence>,
    extra: Fence,
    requested: Usage,
)
    requires
        resv.wf(fences.len() as int),
    ensures
        resv.has_conflict(fences.push(extra), requested) == resv.has_conflict(fences, requested),
{
    let longer = fences.push(extra);
    if resv.has_conflict(longer, requested) {
        let i = choose|i: int|
            0 <= i < resv.entries@.len() && longer[resv.entries@[i].fence as int].state is Pending
                && conflicts(resv.entries@[i].usage, requested);
        assert(resv.entries@[i].fence < fences.len());
        assert(fences[resv.entries@[i].fence as int] == longer[resv.entries@[i].fence as int]);
        assert(resv.has_conflict(fences, requested));
    }
    if resv.has_conflict(fences, requested) {
        let i = choose|i: int|
            0 <= i < resv.entries@.len() && fences[resv.entries@[i].fence as int].state is Pending
                && conflicts(resv.entries@[i].usage, requested);
        assert(longer[resv.entries@[i].fence as int] == fences[resv.entries@[i].fence as int]);
        assert(resv.has_conflict(longer, requested));
    }
}

} // verus!
