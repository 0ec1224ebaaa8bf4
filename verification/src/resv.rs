//! The per-buffer reservation object: the list of fences currently
//! associated with read or write access to a buffer, visible to every
//! consumer of that buffer.
//!
//! The list is append-only while fences are live; entries refer to
//! fences by index into the device's fence arena, so consumers observe
//! a fence's signaled state without owning it.  The object offers a
//! non-blocking test for whether a requested usage would conflict with
//! an outstanding unsignaled fence.

use vstd::prelude::*;

use crate::conflicts;
use crate::fence::Fence;
use crate::Usage;

verus! {

/// One published fence reference, tagged with the usage it was attached
/// under.
#[derive(Clone, Copy, Debug, PartialEq, Eq, Structural)]
pub struct ResvEntry {
    pub fence: usize,
    pub usage: Usage,
}

/// A buffer's reservation object: the fences currently attached to the
/// buffer, by arena index.
pub struct ResvObject {
    pub entries: Vec<ResvEntry>,
}

impl ResvObject {
    /// Every entry refers to a fence inside an arena of `n_fences` fences.
    pub open spec fn wf(self, n_fences: int) -> bool {
        forall|i: int| 0 <= i < self.entries@.len() ==> self.entries@[i].fence < n_fences
    }

    /// Whether some entry holds a still-pending fence whose usage
    /// conflicts with the requested usage, given the current arena.
    pub open spec fn has_conflict(self, fences: Seq<Fence>, requested: Usage) -> bool {
        exists|i: int|
            0 <= i < self.entries@.len() && fences[self.entries@[i].fence as int].state is Pending
                && conflicts(self.entries@[i].usage, requested)
    }

    /// A reservation object with no fence attached.
    pub fn new() -> (r: ResvObject)
        ensures
            r.entries@.len() == 0,
    {
        ResvObject { entries: Vec::new() }
    }

    /// Non-blocking conflict test: true exactly when an outstanding
    /// unsignaled fence on this buffer conflicts with the requested
    /// usage.  Reads the arena, changes nothing.
    pub fn test_conflict(&self, fences: &Vec<Fence>, requested: Usage) -> (r: bool)
        requires
            self.wf(fences@.len() as int),
        ensures
            r == self.has_conflict(fences@, requested),
    {
        let n = self.entries.len();
        let mut i: usize = 0;
        while i < n
            invariant
                self.wf(fences@.len() as int),
                n == self.entries@.len(),
                i <= n,
                forall|j: int|
                    0 <= j < i ==> !(fences@[self.entries@[j].fence as int].state is Pending
                        && conflicts(self.entries@[j].usage, requested)),
            decreases n - i,
        {
            let e = self.entries[i];
            if !fences[e.fence].is_signaled() && (matches!(e.usage, Usage::Write) || matches!(
                requested,
                Usage::Write,
            )) {
                return true;
            }
            i = i + 1;
        }
        false
    }

    /// Publish fence `f` into the reservation object under `usage`,
    /// making it visible to all consumers of the buffer.
    pub fn add_fence(&mut self, f: usize, usage: Usage)
        ensures
            final(self).entries@ == old(self).entries@.push(ResvEntry { fence: f, usage }),
    {
        self.entries.push(ResvEntry { fence: f, usage });
    }
}

} // verus!
