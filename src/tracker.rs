//! Storing and tracking progress.

use std::collections::HashMap;

use crossbeam_channel::{Receiver, Sender};
use vstd::prelude::*;

use crate::ids::ProgressEntryId;
use crate::progress::{wrap, HiddenProgress, Progress};
use crate::send::{
    apply_message, apply_messages, take_queued, AddressedMessage, ProgressMessage, ProgressSender,
};
use crate::sums::{
    combined, combined_done, combined_sum, combined_total, entry_of, hidden_done, hidden_sum,
    hidden_total, lemma_combined_is_sum_of_entries, lemma_sums_after_write, sum_of, visible_done,
    visible_sum, visible_total, Entry,
};

verus! {

broadcast use vstd::std_specs::hash::group_hash_axioms;

/// The store where all progress information is kept.
///
/// It maps entry ids to a visible and a hidden [`Progress`] value, and keeps
/// the sum of all entries up to date on every write, so that reading the
/// overall progress never walks the entries. An entry comes into being on
/// its first write, with `0 / 0` for whatever that write leaves alone, and
/// goes away only when the whole store is cleared.
///
/// All sums wrap around at the bounds of `u32`, as the additions of
/// [`Progress`] do.
pub struct ProgressTracker {
    entries: HashMap<usize, Entry>,
    order: Vec<usize>,
    accum: Entry,
    chan: Option<(Sender<AddressedMessage>, Receiver<AddressedMessage>)>,
}

/// The store after [`ProgressTracker::clear`]: no entry at all, whatever it
/// held before.
pub open spec fn cleared(m: Map<usize, Entry>) -> Map<usize, Entry> {
    Map::empty()
}

/// `after` is what `f` returns for the entry under `k` holding `before`.
pub open spec fn rewritten_by<F: Fn(ProgressEntryId, Progress, HiddenProgress) -> Entry>(
    f: F,
    k: usize,
    before: Entry,
    after: Entry,
) -> bool {
    exists|id: ProgressEntryId| id@ == k && f.ensures((id, before.0, before.1), after)
}

impl View for ProgressTracker {
    type V = Map<usize, Entry>;

    closed spec fn view(&self) -> Map<usize, Entry> {
        self.entries@
    }
}

impl ProgressTracker {
    /// The running sums agree with the entries, and `order` lists the id
    /// of every entry exactly once.
    pub closed spec fn wf(&self) -> bool {
        &&& self.entries@.dom().finite()
        &&& self.order@.no_duplicates()
        &&& forall|i: int| 0 <= i < self.order@.len() ==> self.entries@.contains_key(#[trigger] self.order@[i])
        &&& forall|k: usize| #[trigger] self.entries@.contains_key(k) ==> self.order@.contains(k)
        &&& self.accum.0 == visible_sum(self.entries@)
        &&& self.accum.1.0 == hidden_sum(self.entries@)
    }

    /// The entry stored under `id`, `0 / 0` on both sides if there is none.
    pub open spec fn entry(&self, id: ProgressEntryId) -> Entry {
        entry_of(self@, id@)
    }

    /// Whether the channel for updates from other threads exists.
    pub closed spec fn has_channel(&self) -> bool {
        self.chan is Some
    }

    /// An empty store.
    pub fn new() -> (r: ProgressTracker)
        ensures
            r.wf(),
            r@ == Map::<usize, Entry>::empty(),
            !r.has_channel(),
    {
        let r = ProgressTracker {
            entries: HashMap::new(),
            order: Vec::new(),
            accum: (Progress { done: 0, total: 0 }, HiddenProgress(Progress { done: 0, total: 0 })),
            chan: None,
        };
        proof {
            lemma_sums_of_empty();
        }
        r
    }

    /// Clear all stored progress values.
    pub fn clear(&mut self)
        ensures
            final(self).wf(),
            final(self)@ == cleared(old(self)@),
            final(self).has_channel() == old(self).has_channel(),
    {
        self.entries.clear();
        self.order.clear();
        self.accum = (Progress { done: 0, total: 0 }, HiddenProgress(Progress { done: 0, total: 0 }));
        proof {
            lemma_sums_of_empty();
        }
    }

    /// The stored entry, or the empty entry.
    fn lookup(&self, id: usize) -> (r: Entry)
        ensures
            r == entry_of(self@, id),
    {
        match self.entries.get(&id) {
            Some(e) => *e,
            None => (Progress { done: 0, total: 0 }, HiddenProgress(Progress { done: 0, total: 0 })),
        }
    }

    /// Writes `e` under `id` and moves the running sums by the difference
    /// between `e` and the entry it replaces.
    fn store(&mut self, id: usize, e: Entry)
        requires
            old(self).wf(),
        ensures
            final(self).wf(),
            final(self)@ == old(self)@.insert(id, e),
            final(self).has_channel() == old(self).has_channel(),
            old(self)@.contains_key(id) ==> final(self).order == old(self).order,
    {
        let before = self.lookup(id);
        if !self.entries.contains_key(&id) {
            self.order.push(id);
        }
        let visible = self.accum.0.wrapping_sub(before.0).wrapping_add(e.0);
        let hidden = self.accum.1.wrapping_sub(before.1).wrapping_add(e.1);
        self.accum = (visible, hidden);
        proof {
            lemma_sums_after_write(self.entries@, id, e);
        }
        self.entries.insert(id, e);
        proof {
            if !old(self)@.contains_key(id) {
                assert(self.order@ == old(self).order@.push(id));
                assert(self.order@.last() == id);
                assert(!old(self).order@.contains(id));
                assert forall|k: usize| #[trigger] self.entries@.contains_key(k) implies self.order@.contains(k) by {
                    if k == id {
                        assert(self.order@[self.order@.len() - 1] == id);
                    } else {
                        let j = choose|j: int| 0 <= j < old(self).order@.len() && old(self).order@[j] == k;
                        assert(self.order@[j] == k);
                    }
                }
            }
        }
    }

    /// Overwrite the visible progress stored for `id`, both `done` and `total`.
    pub fn set_progress(&mut self, id: ProgressEntryId, done: u32, total: u32)
        requires
            old(self).wf(),
        ensures
            final(self).wf(),
            final(self).has_channel() == old(self).has_channel(),
            final(self)@ == old(self)@.insert(id@, (Progress { done, total }, old(self).entry(id).1)),
    {
        let e = self.lookup(id.index());
        self.store(id.index(), (Progress { done, total }, e.1));
    }

    /// Overwrite the hidden progress stored for `id`, both `done` and `total`.
    pub fn set_hidden_progress(&mut self, id: ProgressEntryId, done: u32, total: u32)
        requires
            old(self).wf(),
        ensures
            final(self).wf(),
            final(self).has_channel() == old(self).has_channel(),
            final(self)@ == old(self)@.insert(id@, (old(self).entry(id).0, HiddenProgress(Progress { done, total }))),
    {
        let e = self.lookup(id.index());
        self.store(id.index(), (e.0, HiddenProgress(Progress { done, total })));
    }

    /// Overwrite the visible expected units of work stored for `id`.
    pub fn set_total(&mut self, id: ProgressEntryId, total: u32)
        requires
            old(self).wf(),
        ensures
            final(self).wf(),
            final(self).has_channel() == old(self).has_channel(),
            final(self)@ == old(self)@.insert(id@, (Progress { done: old(self).entry(id).0.done, total }, old(self).entry(id).1)),
    {
        let e = self.lookup(id.index());
        self.store(id.index(), (Progress { done: e.0.done, total }, e.1));
    }

    /// Overwrite the visible completed units of work stored for `id`.
    pub fn set_done(&mut self, id: ProgressEntryId, done: u32)
        requires
            old(self).wf(),
        ensures
            final(self).wf(),
            final(self).has_channel() == old(self).has_channel(),
            final(self)@ == old(self)@.insert(id@, (Progress { done, total: old(self).entry(id).0.total }, old(self).entry(id).1)),
    {
        let e = self.lookup(id.index());
        self.store(id.index(), (Progress { done, total: e.0.total }, e.1));
    }

    /// Overwrite the hidden expected units of work stored for `id`.
    pub fn set_hidden_total(&mut self, id: ProgressEntryId, total: u32)
        requires
            old(self).wf(),
        ensures
            final(self).wf(),
            final(self).has_channel() == old(self).has_channel(),
            final(self)@ == old(self)@.insert(id@, (old(self).entry(id).0, HiddenProgress(Progress { done: old(self).entry(id).1.0.done, total }))),
    {
        let e = self.lookup(id.index());
        self.store(id.index(), (e.0, HiddenProgress(Progress { done: e.1.0.done, total })));
    }

    /// Overwrite the hidden completed units of work stored for `id`.
    pub fn set_hidden_done(&mut self, id: ProgressEntryId, done: u32)
        requires
            old(self).wf(),
        ensures
            final(self).wf(),
            final(self).has_channel() == old(self).has_channel(),
            final(self)@ == old(self)@.insert(id@, (old(self).entry(id).0, HiddenProgress(Progress { done, total: old(self).entry(id).1.0.total }))),
    {
        let e = self.lookup(id.index());
        self.store(id.index(), (e.0, HiddenProgress(Progress { done, total: e.1.0.total })));
    }

    /// Add to the visible progress stored for `id`, both `done` and `total`.
    pub fn add_progress(&mut self, id: ProgressEntryId, done: u32, total: u32)
        requires
            old(self).wf(),
        ensures
            final(self).wf(),
            final(self).has_channel() == old(self).has_channel(),
            final(self)@ == old(self)@.insert(id@, (old(self).entry(id).0.plus(Progress { done, total }), old(self).entry(id).1)),
    {
        let e = self.lookup(id.index());
        self.store(id.index(), (e.0.wrapping_add(Progress { done, total }), e.1));
    }

    /// Add to the hidden progress stored for `id`, both `done` and `total`.
    pub fn add_hidden_progress(&mut self, id: ProgressEntryId, done: u32, total: u32)
        requires
            old(self).wf(),
        ensures
            final(self).wf(),
            final(self).has_channel() == old(self).has_channel(),
            final(self)@ == old(self)@.insert(id@, (old(self).entry(id).0, HiddenProgress(old(self).entry(id).1.0.plus(Progress { done, total })))),
    {
        let e = self.lookup(id.index());
        self.store(id.index(), (e.0, HiddenProgress(e.1.0.wrapping_add(Progress { done, total }))));
    }

    /// Add to the visible expected units of work stored for `id`.
    pub fn add_total(&mut self, id: ProgressEntryId, total: u32)
        requires
            old(self).wf(),
        ensures
            final(self).wf(),
            final(self).has_channel() == old(self).has_channel(),
            final(self)@ == old(self)@.insert(id@, (old(self).entry(id).0.plus(Progress { done: 0, total }), old(self).entry(id).1)),
    {
        let e = self.lookup(id.index());
        self.store(id.index(), (e.0.wrapping_add(Progress { done: 0, total }), e.1));
    }

    /// Add to the visible completed units of work stored for `id`.
    pub fn add_done(&mut self, id: ProgressEntryId, done: u32)
        requires
            old(self).wf(),
        ensures
            final(self).wf(),
            final(self).has_channel() == old(self).has_channel(),
            final(self)@ == old(self)@.insert(id@, (old(self).entry(id).0.plus(Progress { done, total: 0 }), old(self).entry(id).1)),
    {
        let e = self.lookup(id.index());
        self.store(id.index(), (e.0.wrapping_add(Progress { done, total: 0 }), e.1));
    }

    /// Add to the hidden expected units of work stored for `id`.
    pub fn add_hidden_total(&mut self, id: ProgressEntryId, total: u32)
        requires
            old(self).wf(),
        ensures
            final(self).wf(),
            final(self).has_channel() == old(self).has_channel(),
            final(self)@ == old(self)@.insert(id@, (old(self).entry(id).0, HiddenProgress(old(self).entry(id).1.0.plus(Progress { done: 0, total })))),
    {
        let e = self.lookup(id.index());
        self.store(id.index(), (e.0, HiddenProgress(e.1.0.wrapping_add(Progress { done: 0, total }))));
    }

    /// Add to the hidden completed units of work stored for `id`.
    pub fn add_hidden_done(&mut self, id: ProgressEntryId, done: u32)
        requires
            old(self).wf(),
        ensures
            final(self).wf(),
            final(self).has_channel() == old(self).has_channel(),
            final(self)@ == old(self)@.insert(id@, (old(self).entry(id).0, HiddenProgress(old(self).entry(id).1.0.plus(Progress { done, total: 0 })))),
    {
        let e = self.lookup(id.index());
        self.store(id.index(), (e.0, HiddenProgress(e.1.0.wrapping_add(Progress { done, total: 0 }))));
    }

    /// Apply one update to the entry under `id`.
    pub fn apply_message(&mut self, id: ProgressEntryId, msg: ProgressMessage)
        requires
            old(self).wf(),
        ensures
            final(self).wf(),
            final(self).has_channel() == old(self).has_channel(),
            final(self)@ == apply_message(old(self)@, id@, msg),
    {
        match msg {
            ProgressMessage::SetProgress(done, total) => self.set_progress(id, done, total),
            ProgressMessage::SetHiddenProgress(done, total) => self.set_hidden_progress(id, done, total),
            ProgressMessage::SetTotal(total) => self.set_total(id, total),
            ProgressMessage::SetDone(done) => self.set_done(id, done),
            ProgressMessage::SetHiddenTotal(total) => self.set_hidden_total(id, total),
            ProgressMessage::SetHiddenDone(done) => self.set_hidden_done(id, done),
            ProgressMessage::AddProgress(done, total) => self.add_progress(id, done, total),
            ProgressMessage::AddHiddenProgress(done, total) => self.add_hidden_progress(id, done, total),
            ProgressMessage::AddTotal(total) => self.add_total(id, total),
            ProgressMessage::AddDone(done) => self.add_done(id, done),
            ProgressMessage::AddHiddenTotal(total) => self.add_hidden_total(id, total),
            ProgressMessage::AddHiddenDone(done) => self.add_hidden_done(id, done),
        }
    }

    /// Apply a batch of updates, first to last.
    pub fn apply_messages(&mut self, msgs: &Vec<AddressedMessage>)
        requires
            old(self).wf(),
        ensures
            final(self).wf(),
            final(self).has_channel() == old(self).has_channel(),
            final(self)@ == apply_messages(old(self)@, msgs@),
    {
        let mut i: usize = 0;
        while i < msgs.len()
            invariant
                i <= msgs.len(),
                self.wf(),
                self.has_channel() == old(self).has_channel(),
                self@ == apply_messages(old(self)@, msgs@.subrange(0, i as int)),
            decreases msgs.len() - i,
        {
            let (id, msg) = msgs[i];
            self.apply_message(id, msg);
            proof {
                assert(msgs@.subrange(0, i + 1).drop_last() == msgs@.subrange(0, i as int));
            }
            i = i + 1;
        }
        proof {
            assert(msgs@.subrange(0, msgs.len() as int) == msgs@);
        }
    }

    /// Make a handle that reports under `id` from another thread or task.
    ///
    /// The first call opens the channel; later calls share it.
    pub fn new_async_entry(&mut self, id: ProgressEntryId) -> (r: ProgressSender)
        requires
            old(self).wf(),
        ensures
            final(self).wf(),
            final(self)@ == old(self)@,
            final(self).has_channel(),
            r.entry_id() == id,
    {
        let tx = match &self.chan {
            Some((tx, _)) => tx.clone(),
            None => {
                let (tx, rx) = crossbeam_channel::unbounded();
                let first = tx.clone();
                self.chan = Some((tx, rx));
                first
            },
        };
        ProgressSender::from_parts(id, tx)
    }

    /// Call `f` on each stored entry, with its id and its visible and
    /// hidden progress, and store what it returns in place of the entry.
    ///
    /// The overall sums follow the new values, as with every other write.
    pub fn foreach_entry<F: Fn(ProgressEntryId, Progress, HiddenProgress) -> Entry>(&mut self, f: F)
        requires
            old(self).wf(),
            forall|id: ProgressEntryId, v: Progress, h: HiddenProgress| f.requires((id, v, h)),
        ensures
            final(self).wf(),
            final(self).has_channel() == old(self).has_channel(),
            final(self)@.dom() == old(self)@.dom(),
            forall|k: usize| #[trigger] old(self)@.contains_key(k) ==> rewritten_by(
                f,
                k,
                old(self)@[k],
                final(self)@[k],
            ),
    {
        let n = self.order.len();
        let mut i: usize = 0;
        while i < n
            invariant
                self.wf(),
                forall|id: ProgressEntryId, v: Progress, h: HiddenProgress| f.requires((id, v, h)),
                self.has_channel() == old(self).has_channel(),
                self.order == old(self).order,
                n == self.order.len(),
                i <= n,
                self@.dom() == old(self)@.dom(),
                forall|j: int| i <= j < n ==> self@[#[trigger] self.order@[j]] == old(self)@[self.order@[j]],
                forall|j: int| 0 <= j < i ==> rewritten_by(
                    f,
                    #[trigger] self.order@[j],
                    old(self)@[self.order@[j]],
                    self@[self.order@[j]],
                ),
            decreases n - i,
        {
            let k = self.order[i];
            let e = self.lookup(k);
            let id = ProgressEntryId::from_index(k);
            let r = f(id, e.0, e.1);
            let ghost prev = self@;
            self.store(k, r);
            proof {
                assert(rewritten_by(f, k, old(self)@[k], self@[k]));
                assert forall|j: int| 0 <= j < i implies rewritten_by(
                    f,
                    #[trigger] self.order@[j],
                    old(self)@[self.order@[j]],
                    self@[self.order@[j]],
                ) by {
                    assert(self.order@[j] != k);
                    assert(prev[self.order@[j]] == self@[self.order@[j]]);
                }
            }
            i = i + 1;
        }
        proof {
            assert forall|k: usize| #[trigger] old(self)@.contains_key(k) implies rewritten_by(
                f,
                k,
                old(self)@[k],
                self@[k],
            ) by {
                let j = choose|j: int| 0 <= j < self.order@.len() && self.order@[j] == k;
                assert(self.order@[j] == k);
            }
        }
    }

    /// Whether any handle for other threads was ever made.
    pub fn has_async_entries(&self) -> (r: bool)
        ensures
            r == self.has_channel(),
    {
        self.chan.is_some()
    }

    /// Apply every update that is queued in the channel, in the order in
    /// which it was sent. Without a channel nothing changes.
    ///
    /// Which updates are queued is up to the other threads. Whatever they
    /// are, the store ends up as though the matching setters had been
    /// called one after the other.
    pub fn recv_progress_msgs(&mut self)
        requires
            old(self).wf(),
        ensures
            final(self).wf(),
            final(self).has_channel() == old(self).has_channel(),
            !old(self).has_channel() ==> final(self)@ == old(self)@,
            exists|msgs: Seq<AddressedMessage>| #[trigger] apply_messages(old(self)@, msgs) == final(self)@,
    {
        let queued = match &self.chan {
            Some((_, rx)) => take_queued(rx),
            None => Vec::new(),
        };
        self.apply_messages(&queued);
    }

    /// Check if there is any progress data stored for a given id.
    pub fn contains_id(&self, id: ProgressEntryId) -> (r: bool)
        ensures
            r == self@.contains_key(id@),
    {
        self.entries.contains_key(&id.index())
    }

    /// Check if all progress is complete, visible and hidden together.
    pub fn is_ready(&self) -> (r: bool)
        requires
            self.wf(),
        ensures
            r == combined_sum(self@).ready(),
    {
        self.get_global_combined_progress().is_ready()
    }

    /// Check if the progress stored for `id`, visible and hidden together,
    /// is complete. An id with no entry is not ready.
    pub fn is_id_ready(&self, id: ProgressEntryId) -> (r: bool)
        ensures
            r == (self@.contains_key(id@) && combined(self@[id@]).ready()),
    {
        match self.entries.get(&id.index()) {
            Some(e) => e.0.wrapping_add(e.1.0).is_ready(),
            None => false,
        }
    }

    /// Get the overall visible progress.
    ///
    /// This is what a user-facing progress indicator should show.
    pub fn get_global_progress(&self) -> (r: Progress)
        requires
            self.wf(),
        ensures
            r == visible_sum(self@),
    {
        self.accum.0
    }

    /// Get the overall hidden progress.
    pub fn get_global_hidden_progress(&self) -> (r: HiddenProgress)
        requires
            self.wf(),
        ensures
            r.0 == hidden_sum(self@),
    {
        self.accum.1
    }

    /// Get the overall visible and hidden progress, added together.
    ///
    /// This is what decides whether all work is complete.
    pub fn get_global_combined_progress(&self) -> (r: Progress)
        requires
            self.wf(),
        ensures
            r == combined_sum(self@),
    {
        self.accum.0.wrapping_add(self.accum.1.0)
    }

    /// Get the visible progress stored for `id`.
    pub fn get_progress(&self, id: ProgressEntryId) -> (r: Progress)
        ensures
            r == self.entry(id).0,
    {
        self.lookup(id.index()).0
    }

    /// Get the hidden progress stored for `id`.
    pub fn get_hidden_progress(&self, id: ProgressEntryId) -> (r: HiddenProgress)
        ensures
            r == self.entry(id).1,
    {
        self.lookup(id.index()).1
    }

    /// Get the visible and hidden progress stored for `id`, added together.
    pub fn get_combined_progress(&self, id: ProgressEntryId) -> (r: Progress)
        ensures
            r == combined(self.entry(id)),
    {
        let e = self.lookup(id.index());
        e.0.wrapping_add(e.1.0)
    }

    /// Get the visible expected units of work stored for `id`.
    pub fn get_total(&self, id: ProgressEntryId) -> (r: u32)
        ensures
            r == self.entry(id).0.total,
    {
        self.lookup(id.index()).0.total
    }

    /// Get the visible completed units of work stored for `id`.
    pub fn get_done(&self, id: ProgressEntryId) -> (r: u32)
        ensures
            r == self.entry(id).0.done,
    {
        self.lookup(id.index()).0.done
    }

    /// Get the hidden expected units of work stored for `id`.
    pub fn get_hidden_total(&self, id: ProgressEntryId) -> (r: u32)
        ensures
            r == self.entry(id).1.0.total,
    {
        self.lookup(id.index()).1.0.total
    }

    /// Get the hidden completed units of work stored for `id`.
    pub fn get_hidden_done(&self, id: ProgressEntryId) -> (r: u32)
        ensures
            r == self.entry(id).1.0.done,
    {
        self.lookup(id.index()).1.0.done
    }
}

impl Default for ProgressTracker {
    fn default() -> (r: ProgressTracker)
        ensures
            r.wf(),
            r@ == Map::<usize, Entry>::empty(),
    {
        ProgressTracker::new()
    }
}

/// At every moment the overall progress of a tracker, visible and hidden
/// together, is the sum over all its entries of their visible and hidden
/// progress, wrapped into `u32`.
pub proof fn lemma_global_is_sum_of_entries(t: &ProgressTracker)
    requires
        t.wf(),
    ensures
        combined_sum(t@) == (Progress {
            done: wrap(sum_of(t@, combined_done())),
            total: wrap(sum_of(t@, combined_total())),
        }),
{
    lemma_combined_is_sum_of_entries(t@);
}

/// Clearing twice leaves the same empty store as clearing once.
pub proof fn lemma_clear_idempotent(m: Map<usize, Entry>)
    ensures
        cleared(cleared(m)) == cleared(m),
{
}

proof fn lemma_sums_of_empty()
    ensures
        visible_sum(Map::<usize, Entry>::empty()) == Progress::zero(),
        hidden_sum(Map::<usize, Entry>::empty()) == Progress::zero(),
{
    let m = Map::<usize, Entry>::empty();
    assert(m.dom() == Set::<usize>::empty());
    vstd::set::fold::lemma_fold_empty(0int, |acc: int, k: usize| acc + visible_done()(m[k]));
    vstd::set::fold::lemma_fold_empty(0int, |acc: int, k: usize| acc + visible_total()(m[k]));
    vstd::set::fold::lemma_fold_empty(0int, |acc: int, k: usize| acc + hidden_done()(m[k]));
    vstd::set::fold::lemma_fold_empty(0int, |acc: int, k: usize| acc + hidden_total()(m[k]));
}

} // verus!
