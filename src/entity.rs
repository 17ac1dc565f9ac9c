//! Progress stored on entities, summed into one entry of the tracker.

use vstd::prelude::*;

use crate::ids::ProgressEntryId;
use crate::progress::{HiddenProgress, Progress};
use crate::sums::Entry;
use crate::tracker::ProgressTracker;

verus! {

/// Visible and hidden progress stored on one entity.
///
/// The values of all such entities are summed up, and only the sum is
/// recorded in the tracker.
#[derive(Debug, Clone, Copy, PartialEq, Eq, Structural)]
pub struct ProgressEntity {
    /// The visible progress associated with the entity.
    pub visible: Progress,
    /// The hidden progress associated with the entity.
    pub hidden: HiddenProgress,
}

/// The wrapping sum of the visible and of the hidden progress of `es`.
pub open spec fn entity_sum(es: Seq<ProgressEntity>) -> Entry
    decreases es.len(),
{
    if es.len() == 0 {
        (Progress::zero(), HiddenProgress(Progress::zero()))
    } else {
        let rest = entity_sum(es.drop_last());
        (rest.0.plus(es.last().visible), HiddenProgress(rest.1.0.plus(es.last().hidden.0)))
    }
}

impl ProgressEntity {
    /// No progress, `0 / 0`, on either side.
    pub fn new() -> (r: ProgressEntity)
        ensures
            r.visible == Progress::zero(),
            r.hidden.0 == Progress::zero(),
    {
        ProgressEntity {
            visible: Progress { done: 0, total: 0 },
            hidden: HiddenProgress(Progress { done: 0, total: 0 }),
        }
    }

    /// Builder-style method to set the visible progress.
    pub fn with_progress(self, done: u32, total: u32) -> (r: ProgressEntity)
        ensures
            r.visible == (Progress { done, total }),
            r.hidden == self.hidden,
    {
        ProgressEntity { visible: Progress { done, total }, hidden: self.hidden }
    }

    /// Builder-style method to set the hidden progress.
    pub fn with_hidden_progress(self, done: u32, total: u32) -> (r: ProgressEntity)
        ensures
            r.visible == self.visible,
            r.hidden == HiddenProgress(Progress { done, total }),
    {
        ProgressEntity { visible: self.visible, hidden: HiddenProgress(Progress { done, total }) }
    }
}

impl Default for ProgressEntity {
    fn default() -> (r: ProgressEntity)
        ensures
            r.visible == Progress::zero(),
            r.hidden.0 == Progress::zero(),
    {
        ProgressEntity::new()
    }
}

/// The sums of the visible and of the hidden progress of all `entities`.
pub fn sum_entities(entities: &Vec<ProgressEntity>) -> (r: Entry)
    ensures
        r == entity_sum(entities@),
{
    let mut sum: Entry = (Progress { done: 0, total: 0 }, HiddenProgress(Progress { done: 0, total: 0 }));
    let mut i: usize = 0;
    while i < entities.len()
        invariant
            i <= entities.len(),
            sum == entity_sum(entities@.subrange(0, i as int)),
        decreases entities.len() - i,
    {
        let e = entities[i];
        sum = (sum.0.wrapping_add(e.visible), sum.1.wrapping_add(e.hidden));
        proof {
            assert(entities@.subrange(0, i + 1).drop_last() == entities@.subrange(0, i as int));
        }
        i = i + 1;
    }
    proof {
        assert(entities@.subrange(0, entities.len() as int) == entities@);
    }
    sum
}

/// Records the sums of all `entities` as the entry under `id`, replacing
/// what was there.
pub fn apply_progress_from_entities(
    tracker: &mut ProgressTracker,
    id: ProgressEntryId,
    entities: &Vec<ProgressEntity>,
)
    requires
        old(tracker).wf(),
    ensures
        final(tracker).wf(),
        final(tracker).has_channel() == old(tracker).has_channel(),
        final(tracker)@ == old(tracker)@.insert(id@, entity_sum(entities@)),
{
    let sum = sum_entities(entities);
    tracker.set_progress(id, sum.0.done, sum.0.total);
    tracker.set_hidden_progress(id, sum.1.0.done, sum.1.0.total);
}

} // verus!
