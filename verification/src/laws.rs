//! The laws of the fence subsystem: properties that relate several
//! operations, stated over the same step relations the handlers'
//! contracts use and proved once for every input.

use vstd::prelude::*;

use crate::device::{fences_after_expiry, pending_upto, published_in, Buffer, Device};
use crate::fence::{expire_at, Fence};
use crate::handle_table::{alloc_ok, replace_ok, HandleTable};
use crate::session::{attach_post, signal_post, valid_attach_args, Session};
use crate::Error;

verus! {

/// No double handle: two allocations in the same table never return the
/// same id while both remain live, and both ids still hold their fences
/// afterwards.
pub proof fn lemma_no_double_handle(
    t0: HandleTable,
    t1: HandleTable,
    t2: HandleTable,
    id1: int,
    id2: int,
    f1: usize,
    f2: usize,
)
    requires
        alloc_ok(t0, t1, id1, f1),
        alloc_ok(t1, t2, id2, f2),
    ensures
        id1 != id2,
        t2.slots@[id1] == Some(f1),
        t2.slots@[id2] == Some(f2),
{
}

/// Id reuse: after consuming id `x` (replacing its slot with empty), the
/// next allocation returns `x` again whenever every lower id is still
/// occupied — the freed slot is the lowest free one.
pub proof fn lemma_id_reuse(
    t0: HandleTable,
    t1: HandleTable,
    t2: HandleTable,
    x: int,
    prev: Option<usize>,
    f: usize,
    id: int,
)
    requires
        replace_ok(t0, t1, x, None, prev),
        forall|j: int| 0 <= j < x ==> t1.slots@[j] is Some,
        alloc_ok(t1, t2, id, f),
    ensures
        id == x,
{
    if id < x {
        assert(t1.slots@[id] is Some);
    }
    if id > x {
        assert(t1.slots@[x] is None);
    }
}

/// Conflict correctness: while a buffer carries an outstanding
/// unsignaled write-usage fence whose deadline has not elapsed, an
/// attach for that buffer returns busy — whatever usage it requests —
/// and allocates no handle.
pub proof fn lemma_conflict_rejected(
    pre_s: Session,
    pre_d: Device,
    post_s: Session,
    post_d: Device,
    handle: u32,
    flags: u32,
    now: u64,
    e: int,
    r: Result<usize, Error>,
)
    requires
        attach_post(pre_s, pre_d, post_s, post_d, handle, flags, 0, now, r),
        valid_attach_args(flags, 0),
        pre_d.wf(),
        pre_d.has_buffer(handle),
        0 <= e < pre_d.buffers@[pre_d.buffer_at(handle)].resv.entries@.len(),
        pre_d.buffers@[pre_d.buffer_at(handle)].resv.entries@[e].usage is Write,
        pre_d.fences@[pre_d.buffers@[pre_d.buffer_at(handle)].resv.entries@[e].fence as int].state
            is Pending,
        pre_d.fences@[pre_d.buffers@[pre_d.buffer_at(handle)].resv.entries@[e].fence as int].deadline
            > now,
    ensures
        r == Err::<usize, Error>(Error::Busy),
        post_s == pre_s,
{
    let b = pre_d.buffer_at(handle);
    let resv = pre_d.buffers@[b].resv;
    let fi = resv.entries@[e].fence as int;
    let ef = fences_after_expiry(pre_d.fences@, now);
    assert(0 <= b < pre_d.buffers@.len());
    assert(fi < pre_d.fences@.len());
    assert(ef[fi] == expire_at(pre_d.fences@[fi], now));
    assert(ef[fi].state is Pending);
    assert(crate::conflicts(resv.entries@[e].usage, crate::session::requested_usage(flags)));
    assert(resv.has_conflict(ef, crate::session::requested_usage(flags)));
}

/// No leak on busy: an attach that reports busy leaves its freshly
/// created fence fully signaled — woken exactly once — and the number of
/// pending fences in the arena does not grow.
pub proof fn lemma_no_leak_on_busy(
    pre_s: Session,
    pre_d: Device,
    post_s: Session,
    post_d: Device,
    handle: u32,
    flags: u32,
    pad: u32,
    now: u64,
    r: Result<usize, Error>,
)
    requires
        attach_post(pre_s, pre_d, post_s, post_d, handle, flags, pad, now, r),
        r == Err::<usize, Error>(Error::Busy),
    ensures
        post_d.fences@.len() == pre_d.fences@.len() + 1,
        post_d.fences@.last().state is Signaled,
        post_d.fences@.last().wakes == 1,
        post_d.pending_count() <= pre_d.pending_count(),
        post_s == pre_s,
{
    let n = pre_d.fences@.len() as int;
    let ef = fences_after_expiry(pre_d.fences@, now);
    lemma_pending_upto_push(ef, post_d.fences@.last(), n);
    lemma_pending_expiry_le(pre_d.fences@, now, n);
}

/// Expiring fences can only reduce how many of the first `n` are
/// pending.
pub proof fn lemma_pending_expiry_le(s: Seq<Fence>, now: u64, n: int)
    requires
        0 <= n <= s.len(),
    ensures
        pending_upto(fences_after_expiry(s, now), n) <= pending_upto(s, n),
    decreases n,
{
    if n > 0 {
        lemma_pending_expiry_le(s, now, n - 1);
        assert(fences_after_expiry(s, now)[n - 1] == expire_at(s[n - 1], now));
    }
}

/// Appending a fence does not change how many of the first `n` existing
/// fences are pending.
pub proof fn lemma_pending_upto_push(s: Seq<Fence>, x: Fence, n: int)
    requires
        0 <= n <= s.len(),
    ensures
        pending_upto(s.push(x), n) == pending_upto(s, n),
    decreases n,
{
    if n > 0 {
        lemma_pending_upto_push(s, x, n - 1);
    }
}

/// Single consumption: once a signal call on an id succeeded, a second
/// signal call on the same id fails with not-found, at any later time.
pub proof fn lemma_single_consumption(
    s0: Session,
    d0: Device,
    s1: Session,
    d1: Device,
    s2: Session,
    d2: Device,
    id: usize,
    now1: u64,
    now2: u64,
    r1: Result<(), Error>,
    r2: Result<(), Error>,
)
    requires
        signal_post(s0, d0, s1, d1, id, 0, now1, r1),
        r1 is Ok,
        signal_post(s1, d1, s2, d2, id, 0, now2, r2),
    ensures
        r2 == Err::<(), Error>(Error::NotFound),
{
    assert(s1.table.slots@[id as int] is None);
}

/// Expiry race: when a fence's deadline elapses before the explicit
/// signal call arrives, that call returns timed-out, the id is still
/// consumed, and the fence — woken once by expiry — is not woken a
/// second time.
pub proof fn lemma_expiry_race(
    s0: Session,
    d0: Device,
    s1: Session,
    d1: Device,
    id: usize,
    now: u64,
    r: Result<(), Error>,
)
    requires
        signal_post(s0, d0, s1, d1, id, 0, now, r),
        d0.wf(),
        s0.wf(d0),
        id < s0.table.slots@.len(),
        s0.table.slots@[id as int] is Some,
        d0.fences@[s0.table.slots@[id as int]->0 as int].state is Pending,
        d0.fences@[s0.table.slots@[id as int]->0 as int].deadline <= now,
    ensures
        r == Err::<(), Error>(Error::TimedOut),
        s1.table.slots@[id as int] is None,
        d1.fences@[s0.table.slots@[id as int]->0 as int].state is Expired,
        d1.fences@[s0.table.slots@[id as int]->0 as int].wakes == 1,
{
    let f = s0.table.slots@[id as int]->0 as int;
    let ef = fences_after_expiry(d0.fences@, now);
    assert(ef[f] == expire_at(d0.fences@[f], now));
    assert(d0.fences@[f].wf());
}

/// Growing reservation objects in place — same buffers, each keeping
/// its existing entries — keeps every published fence published.
pub proof fn lemma_published_in_extend(bufs1: Seq<Buffer>, bufs2: Seq<Buffer>, f: usize)
    requires
        bufs2.len() == bufs1.len(),
        forall|b: int|
            0 <= b < bufs1.len() ==> bufs1[b].resv.entries@.len()
                <= #[trigger] bufs2[b].resv.entries@.len(),
        forall|b: int, e: int|
            0 <= b < bufs1.len() && 0 <= e < bufs1[b].resv.entries@.len()
                ==> #[trigger] bufs2[b].resv.entries@[e] == bufs1[b].resv.entries@[e],
        published_in(bufs1, f),
    ensures
        published_in(bufs2, f),
{
    let (b, e) = choose|b: int, e: int|
        0 <= b < bufs1.len() && 0 <= e < bufs1[b].resv.entries@.len()
            && bufs1[b].resv.entries@[e].fence == f;
    assert(bufs2[b].resv.entries@[e] == bufs1[b].resv.entries@[e]);
    assert(published_in(bufs2, f));
}

/// The handle table is the single source of truth for fences that were
/// actually published: an attach call preserves the invariant that
/// every live slot's fence stands in some buffer's reservation object —
/// including the slot it just filled, whose fence it published first.
pub proof fn lemma_attach_keeps_table_published(
    pre_s: Session,
    pre_d: Device,
    post_s: Session,
    post_d: Device,
    handle: u32,
    flags: u32,
    pad: u32,
    now: u64,
    r: Result<usize, Error>,
)
    requires
        attach_post(pre_s, pre_d, post_s, post_d, handle, flags, pad, now, r),
        forall|i: int|
            0 <= i < pre_s.table.slots@.len() && pre_s.table.slots@[i] is Some ==> published_in(
                pre_d.buffers@,
                #[trigger] pre_s.table.slots@[i]->0,
            ),
    ensures
        forall|i: int|
            0 <= i < post_s.table.slots@.len() && post_s.table.slots@[i] is Some ==> published_in(
                post_d.buffers@,
                #[trigger] post_s.table.slots@[i]->0,
            ),
{
    let slots = pre_s.table.slots@;
    if valid_attach_args(flags, pad) && pre_d.has_buffer(handle) {
        let b = pre_d.buffer_at(handle);
        let ef = fences_after_expiry(pre_d.fences@, now);
        if !pre_d.buffers@[b].resv.has_conflict(ef, crate::session::requested_usage(flags)) {
            // the reservation object of buffer `b` grew by one entry
            assert forall|i: int|
                0 <= i < post_s.table.slots@.len() && post_s.table.slots@[i] is Some implies
                published_in(post_d.buffers@, post_s.table.slots@[i]->0) by {
                let f = post_s.table.slots@[i]->0;
                if i < slots.len() && slots[i] is Some && slots[i]->0 == f {
                    lemma_published_in_extend(pre_d.buffers@, post_d.buffers@, f);
                } else {
                    // the freshly filled slot: its fence is the entry
                    // just appended to buffer `b`
                    assert(post_s.table.slots@[i] == Some(pre_d.fences@.len() as usize));
                    let e = pre_d.buffers@[b].resv.entries@.len() as int;
                    assert(post_d.buffers@[b].resv.entries@[e].fence == f);
                    assert(published_in(post_d.buffers@, f));
                }
            }
        }
    }
}

/// A signal call preserves the same invariant: it only empties a slot
/// and touches no reservation object.
pub proof fn lemma_signal_keeps_table_published(
    pre_s: Session,
    pre_d: Device,
    post_s: Session,
    post_d: Device,
    id: usize,
    flags: u32,
    now: u64,
    r: Result<(), Error>,
)
    requires
        signal_post(pre_s, pre_d, post_s, post_d, id, flags, now, r),
        forall|i: int|
            0 <= i < pre_s.table.slots@.len() && pre_s.table.slots@[i] is Some ==> published_in(
                pre_d.buffers@,
                #[trigger] pre_s.table.slots@[i]->0,
            ),
    ensures
        forall|i: int|
            0 <= i < post_s.table.slots@.len() && post_s.table.slots@[i] is Some ==> published_in(
                post_d.buffers@,
                #[trigger] post_s.table.slots@[i]->0,
            ),
{
}

/// A well-formed device never wakes a fence's waiters twice: every
/// fence in the arena has woken them at most once.
pub proof fn lemma_single_wake(d: Device)
    requires
        d.wf(),
    ensures
        forall|i: int| 0 <= i < d.fences@.len() ==> d.fences@[i].wakes <= 1,
{
    assert forall|i: int| 0 <= i < d.fences@.len() implies d.fences@[i].wakes <= 1 by {
        assert(d.fences@[i].wf());
    }
}

} // verus!
