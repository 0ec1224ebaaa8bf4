//! The per-session handle table: a sparse allocator mapping small
//! integer ids to slots that hold either a live fence (by its index in
//! the device's fence arena) or nothing.
//!
//! Only two mutations are exposed: `allocate`, which fills the lowest
//! free slot (reusing a previously freed id where possible), and
//! `replace`, which atomically swaps a slot's contents and returns the
//! prior value.  The table's size is bounded by a per-session limit
//! fixed at construction.

use vstd::prelude::*;

use crate::Error;

verus! {

/// A sparse id-to-fence table.  `slots[id]` holds the fence index the
/// client registered under `id`, or `None` once that id has been
/// consumed (or not yet allocated).  `cap` is the per-session limit on
/// the number of slots.
pub struct HandleTable {
    pub slots: Vec<Option<usize>>,
    pub cap: usize,
}

/// Exactly the successful-allocation step: `post` is `pre` with the
/// lowest free id filled by fence `f` — either the first slot that held
/// nothing, or a fresh slot at the end if every existing slot is full
/// and the table is under its limit.
pub open spec fn alloc_ok(pre: HandleTable, post: HandleTable, id: int, f: usize) -> bool {
    &&& 0 <= id <= pre.slots@.len()
    &&& forall|j: int| 0 <= j < id ==> pre.slots@[j] is Some
    &&& id < pre.slots@.len() ==> pre.slots@[id] is None && post.slots@ == pre.slots@.update(
        id,
        Some(f),
    )
    &&& id == pre.slots@.len() ==> pre.slots@.len() < pre.cap && post.slots@ == pre.slots@.push(
        Some(f),
    )
    &&& post.cap == pre.cap
}

/// Exactly the replace step: `post` is `pre` with slot `id` swapped to
/// `v`, and `prev` is what the slot held before.
pub open spec fn replace_ok(
    pre: HandleTable,
    post: HandleTable,
    id: int,
    v: Option<usize>,
    prev: Option<usize>,
) -> bool {
    &&& 0 <= id < pre.slots@.len()
    &&& prev == pre.slots@[id]
    &&& post.slots@ == pre.slots@.update(id, v)
    &&& post.cap == pre.cap
}

/// A table with no free slot left: every slot is full and the table has
/// reached its per-session limit.
pub open spec fn table_full(t: HandleTable) -> bool {
    &&& t.slots@.len() == t.cap
    &&& forall|j: int| 0 <= j < t.slots@.len() ==> t.slots@[j] is Some
}

impl HandleTable {
    /// The table never exceeds its per-session limit.
    pub open spec fn wf(self) -> bool {
        self.slots@.len() <= self.cap
    }

    /// An empty table bounded by `cap` slots.
    pub fn new(cap: usize) -> (t: HandleTable)
        ensures
            t.wf(),
            t.cap == cap,
            t.slots@.len() == 0,
    {
        HandleTable { slots: Vec::new(), cap }
    }

    /// Reserve the lowest free id, store fence `f` there, and return the
    /// id.  Fails only when every slot is full and the table is at its
    /// limit; the table is then unchanged and the caller retains the
    /// fence.
    pub fn allocate(&mut self, f: usize) -> (r: Result<usize, Error>)
        requires
            old(self).wf(),
        ensures
            final(self).wf(),
            match r {
                Ok(id) => alloc_ok(*old(self), *final(self), id as int, f),
                Err(e) => e == Error::ResourceExhausted && *final(self) == *old(self)
                    && table_full(*old(self)),
            },
    {
        let n = self.slots.len();
        let mut i: usize = 0;
        while i < n
            invariant
                old(self).wf(),
                n == self.slots@.len(),
                i <= n,
                forall|j: int| 0 <= j < i ==> self.slots@[j] is Some,
                *self == *old(self),
            decreases n - i,
        {
            if self.slots[i].is_none() {
                self.slots[i] = Some(f);
                return Ok(i);
            }
            i = i + 1;
        }
        if n < self.cap {
            self.slots.push(Some(f));
            Ok(n)
        } else {
            Err(Error::ResourceExhausted)
        }
    }

    /// Atomically swap slot `id` to hold `v`, returning the prior
    /// contents.  Fails with not-found, leaving the table unchanged, when
    /// `id` lies outside the allocated range.
    pub fn replace(&mut self, id: usize, v: Option<usize>) -> (r: Result<Option<usize>, Error>)
        ensures
            match r {
                Ok(prev) => replace_ok(*old(self), *final(self), id as int, v, prev),
                Err(e) => e == Error::NotFound && id >= old(self).slots@.len() && *final(self)
                    == *old(self),
            },
            r is Ok <==> id < old(self).slots@.len(),
            old(self).wf() ==> final(self).wf(),
    {
        if id < self.slots.len() {
            let prev = self.slots[id];
            self.slots[id] = v;
            Ok(prev)
        } else {
            Err(Error::NotFound)
        }
    }
}

} // verus!
