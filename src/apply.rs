//! Values that a producer hands back and that overwrite its entry.

use vstd::prelude::*;

use crate::ids::ProgressEntryId;
use crate::progress::{HiddenProgress, Progress};
use crate::send::{apply_message, ProgressMessage};
use crate::sums::Entry;
use crate::tracker::ProgressTracker;

verus! {

/// A value that a producer reports as its current progress: visible
/// [`Progress`], [`HiddenProgress`], or a pair of such values.
pub trait ApplyProgress: Sized {
    /// The store `m` after `self` has been recorded under `id`.
    spec fn applied(self, m: Map<usize, Entry>, id: usize) -> Map<usize, Entry>;

    /// Record `self` as the current value of the entry under `id`.
    fn apply_progress(self, tracker: &mut ProgressTracker, id: ProgressEntryId)
        requires
            old(tracker).wf(),
        ensures
            final(tracker).wf(),
            final(tracker).has_channel() == old(tracker).has_channel(),
            final(tracker)@ == self.applied(old(tracker)@, id@),
    ;
}

impl ApplyProgress for Progress {
    /// Visible progress overwrites the visible side of the entry.
    open spec fn applied(self, m: Map<usize, Entry>, id: usize) -> Map<usize, Entry> {
        apply_message(m, id, ProgressMessage::SetProgress(self.done, self.total))
    }

    fn apply_progress(self, tracker: &mut ProgressTracker, id: ProgressEntryId) {
        tracker.set_progress(id, self.done, self.total);
    }
}

impl ApplyProgress for HiddenProgress {
    /// Hidden progress overwrites the hidden side of the entry.
    open spec fn applied(self, m: Map<usize, Entry>, id: usize) -> Map<usize, Entry> {
        apply_message(m, id, ProgressMessage::SetHiddenProgress(self.0.done, self.0.total))
    }

    fn apply_progress(self, tracker: &mut ProgressTracker, id: ProgressEntryId) {
        tracker.set_hidden_progress(id, self.0.done, self.0.total);
    }
}

impl<T1: ApplyProgress, T2: ApplyProgress> ApplyProgress for (T1, T2) {
    /// A pair records its first value, then its second.
    open spec fn applied(self, m: Map<usize, Entry>, id: usize) -> Map<usize, Entry> {
        self.1.applied(self.0.applied(m, id), id)
    }

    fn apply_progress(self, tracker: &mut ProgressTracker, id: ProgressEntryId) {
        let (first, second) = self;
        first.apply_progress(tracker, id);
        second.apply_progress(tracker, id);
    }
}

} // verus!
