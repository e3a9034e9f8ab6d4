//! The latest-value broadcast slot: a single-slot store of the most recent
//! snapshot, with any number of readers. A write always overwrites the slot —
//! there is no queue and no backlog, so a slow or absent reader never causes
//! backpressure on the writer: publishing is specified over the slot alone
//! and no reader appears in its contract. Each reader carries its own
//! last-observed marker, so change detection is independent of every other
//! reader's progress.

use vstd::prelude::*;

use crate::engine::Output;

verus! {

/// The single slot. It holds the most recent snapshot and a version counter
/// that ticks up on every publish.
pub struct Slot {
    latest: Output,
    version: u64,
}

/// One reader's handle: the version it last observed.
pub struct Reader {
    mark: u64,
}

impl Reader {
    /// The version this reader last observed.
    pub closed spec fn spec_mark(self) -> u64 {
        self.mark
    }
}

/// Whether a reader has observed the slot's current value.
pub open spec fn sees_latest(r: Reader, s: Slot) -> bool {
    r.spec_mark() == s.spec_version()
}

impl Slot {
    /// The snapshot the slot currently holds.
    pub closed spec fn spec_latest(self) -> Output {
        self.latest
    }

    /// How many times the slot has been written.
    pub closed spec fn spec_version(self) -> u64 {
        self.version
    }

    /// A fresh slot holding the first snapshot.
    pub fn init(first: Output) -> (r: Slot)
        ensures
            r.spec_latest() == first,
            r.spec_version() == 0,
    {
        Slot { latest: first, version: 0 }
    }

    /// Overwrite the slot with a newer snapshot. Nothing about any reader
    /// stands in the way: the write succeeds whatever the readers do.
    pub fn publish(&mut self, s: Output)
        requires
            old(self).spec_version() < u64::MAX,
        ensures
            final(self).spec_latest() == s,
            final(self).spec_version() == old(self).spec_version() + 1,
    {
        self.latest = s;
        self.version = self.version + 1;
    }

    /// Read the current snapshot immediately, without marking it observed.
    pub fn read(&self) -> (r: Output)
        ensures
            r == self.spec_latest(),
    {
        self.latest
    }

    /// A new reader that has already observed the current value: it reports
    /// a change only once the slot is next written.
    pub fn subscribe(&self) -> (r: Reader)
        ensures
            sees_latest(r, *self),
    {
        Reader { mark: self.version }
    }
}

impl Reader {
    /// Whether the slot has been written since this reader last observed it.
    pub fn has_changed(&self, slot: &Slot) -> (r: bool)
        ensures
            r == !sees_latest(*self, *slot),
    {
        self.mark != slot.version
    }

    /// Observe the slot: the current snapshot, marked as observed.
    pub fn observe(&mut self, slot: &Slot) -> (r: Output)
        ensures
            r == slot.spec_latest(),
            sees_latest(*final(self), *slot),
    {
        self.mark = slot.version;
        slot.read()
    }
}

/// Every reader that was up to date, or behind, sees a change after one
/// publish: no reader's progress can hide a newer snapshot from any other
/// reader, and the next observation returns exactly the published snapshot.
pub proof fn lemma_publish_reaches_every_reader(pre: Slot, post: Slot, s: Output, r: Reader)
    requires
        pre.spec_version() < u64::MAX,
        post.spec_latest() == s,
        post.spec_version() == pre.spec_version() + 1,
        r.spec_mark() <= pre.spec_version(),
    ensures
        !sees_latest(r, post),
        post.spec_latest() == s,
{
}

} // verus!
