//! Entry ids and the allocator that hands them out.

use vstd::prelude::*;

verus! {

/// An opaque id under which a [`ProgressTracker`](crate::ProgressTracker)
/// stores one entry of progress.
///
/// Ids come from an [`EntryIdAllocator`]; one allocator never hands out the
/// same id twice.
#[derive(Debug, Clone, Copy, PartialEq, Eq, Hash, Structural)]
pub struct ProgressEntryId(usize);

impl View for ProgressEntryId {
    type V = usize;

    closed spec fn view(&self) -> usize {
        self.0
    }
}

impl ProgressEntryId {
    pub(crate) fn from_index(k: usize) -> (r: ProgressEntryId)
        ensures
            r@ == k,
    {
        ProgressEntryId(k)
    }

    /// The number behind this id.
    pub fn index(&self) -> (r: usize)
        ensures
            r == self@,
    {
        self.0
    }
}

/// Hands out entry ids in increasing order, starting at zero.
///
/// Keep one allocator for the whole process to make ids unique across every
/// tracker.
#[derive(Debug)]
pub struct EntryIdAllocator {
    next: usize,
}

impl EntryIdAllocator {
    /// The id that the next allocation returns.
    pub closed spec fn next_id(&self) -> usize {
        self.next
    }

    /// An allocator that has handed out no id yet.
    pub fn new() -> (r: EntryIdAllocator)
        ensures
            r.next_id() == 0,
    {
        EntryIdAllocator { next: 0 }
    }

    /// Allocates a fresh id: the lowest one not handed out yet.
    ///
    /// Returns `None`, and changes nothing, once every `usize` but the
    /// largest has been handed out.
    pub fn allocate(&mut self) -> (r: Option<ProgressEntryId>)
        ensures
            old(self).next_id() < usize::MAX ==> {
                &&& r matches Some(id)
                &&& id@ == old(self).next_id()
                &&& final(self).next_id() == old(self).next_id() + 1
            },
            old(self).next_id() == usize::MAX ==> r is None && final(self).next_id() == old(
                self,
            ).next_id(),
    {
        if self.next < usize::MAX {
            let id = ProgressEntryId(self.next);
            self.next = self.next + 1;
            Some(id)
        } else {
            None
        }
    }
}

impl Default for EntryIdAllocator {
    fn default() -> (r: EntryIdAllocator)
        ensures
            r.next_id() == 0,
    {
        EntryIdAllocator::new()
    }
}

} // verus!
