//! Reporting progress from other threads through a channel.

use crossbeam_channel::{Receiver, Sender};
use vstd::prelude::*;

use crate::ids::ProgressEntryId;
use crate::progress::{HiddenProgress, Progress};
use crate::sums::{entry_of, Entry};

verus! {

/// One update of a progress entry, as sent through a [`ProgressSender`].
///
/// Each kind has the effect of the [`ProgressTracker`](crate::ProgressTracker)
/// method of the same name.
#[derive(Debug, Clone, Copy, PartialEq, Eq, Structural)]
pub enum ProgressMessage {
    SetProgress(u32, u32),
    SetHiddenProgress(u32, u32),
    SetTotal(u32),
    SetDone(u32),
    SetHiddenTotal(u32),
    SetHiddenDone(u32),
    AddProgress(u32, u32),
    AddHiddenProgress(u32, u32),
    AddTotal(u32),
    AddDone(u32),
    AddHiddenTotal(u32),
    AddHiddenDone(u32),
}

/// A message together with the id of the entry it updates.
pub type AddressedMessage = (ProgressEntryId, ProgressMessage);

/// The entry under `id` after `msg` has been applied to it.
pub open spec fn updated_entry(e: Entry, msg: ProgressMessage) -> Entry {
    match msg {
        ProgressMessage::SetProgress(done, total) => (Progress { done, total }, e.1),
        ProgressMessage::SetHiddenProgress(done, total) => (e.0, HiddenProgress(Progress { done, total })),
        ProgressMessage::SetTotal(total) => (Progress { done: e.0.done, total }, e.1),
        ProgressMessage::SetDone(done) => (Progress { done, total: e.0.total }, e.1),
        ProgressMessage::SetHiddenTotal(total) => (e.0, HiddenProgress(Progress { done: e.1.0.done, total })),
        ProgressMessage::SetHiddenDone(done) => (e.0, HiddenProgress(Progress { done, total: e.1.0.total })),
        ProgressMessage::AddProgress(done, total) => (e.0.plus(Progress { done, total }), e.1),
        ProgressMessage::AddHiddenProgress(done, total) => (e.0, HiddenProgress(e.1.0.plus(Progress { done, total }))),
        ProgressMessage::AddTotal(total) => (e.0.plus(Progress { done: 0, total }), e.1),
        ProgressMessage::AddDone(done) => (e.0.plus(Progress { done, total: 0 }), e.1),
        ProgressMessage::AddHiddenTotal(total) => (e.0, HiddenProgress(e.1.0.plus(Progress { done: 0, total }))),
        ProgressMessage::AddHiddenDone(done) => (e.0, HiddenProgress(e.1.0.plus(Progress { done, total: 0 }))),
    }
}

/// The store `m` after applying `msg` to the entry under `id`.
pub open spec fn apply_message(m: Map<usize, Entry>, id: usize, msg: ProgressMessage) -> Map<usize, Entry> {
    m.insert(id, updated_entry(entry_of(m, id), msg))
}

/// The store `m` after applying every message of `msgs`, first to last.
pub open spec fn apply_messages(m: Map<usize, Entry>, msgs: Seq<AddressedMessage>) -> Map<usize, Entry>
    decreases msgs.len(),
{
    if msgs.len() == 0 {
        m
    } else {
        let last = msgs.last();
        apply_message(apply_messages(m, msgs.drop_last()), last.0@, last.1)
    }
}

/// A handle to send progress updates from a background thread or an async
/// task.
///
/// Each handle stands for one entry id of the tracker that made it; a clone
/// stands for the same id. Sending never blocks: an update that the channel
/// does not take is dropped. The updates reach the tracker when it next
/// drains its channel, in the order in which each handle sent them.
#[derive(Clone)]
pub struct ProgressSender {
    id: ProgressEntryId,
    sender: Sender<AddressedMessage>,
}

/// Relies on crossbeam_channel::Sender::try_send: queues the message
/// without blocking, or drops it where the channel does not take it. Nothing
/// is stated of which.
#[verifier::external_body]
fn try_send(sender: &Sender<AddressedMessage>, msg: AddressedMessage) {
    let _ = sender.try_send(msg);
}

/// Relies on crossbeam_channel::Receiver::try_iter: takes the messages that
/// are queued, without blocking. Nothing is stated of which, since other
/// threads send them.
#[verifier::external_body]
pub(crate) fn take_queued(receiver: &Receiver<AddressedMessage>) -> Vec<AddressedMessage> {
    receiver.try_iter().collect()
}

impl ProgressSender {
    /// The id that this handle reports under.
    pub closed spec fn entry_id(&self) -> ProgressEntryId {
        self.id
    }

    pub(crate) fn from_parts(id: ProgressEntryId, sender: Sender<AddressedMessage>) -> (r: ProgressSender)
        ensures
            r.entry_id() == id,
    {
        ProgressSender { id, sender }
    }

    /// Get the id of the entry this handle reports under.
    pub fn id(&self) -> (r: ProgressEntryId)
        ensures
            r == self.entry_id(),
    {
        self.id
    }

    fn msg(&self, msg: ProgressMessage) {
        try_send(&self.sender, (self.id, msg));
    }

    /// Set the visible progress.
    pub fn set_progress(&self, done: u32, total: u32) {
        self.msg(ProgressMessage::SetProgress(done, total));
    }

    /// Set the hidden progress.
    pub fn set_hidden_progress(&self, done: u32, total: u32) {
        self.msg(ProgressMessage::SetHiddenProgress(done, total));
    }

    /// Set the visible expected units of work.
    pub fn set_total(&self, total: u32) {
        self.msg(ProgressMessage::SetTotal(total));
    }

    /// Set the visible completed units of work.
    pub fn set_done(&self, done: u32) {
        self.msg(ProgressMessage::SetDone(done));
    }

    /// Set the hidden expected units of work.
    pub fn set_hidden_total(&self, total: u32) {
        self.msg(ProgressMessage::SetHiddenTotal(total));
    }

    /// Set the hidden completed units of work.
    pub fn set_hidden_done(&self, done: u32) {
        self.msg(ProgressMessage::SetHiddenDone(done));
    }

    /// Add to the visible progress.
    pub fn add_progress(&self, done: u32, total: u32) {
        self.msg(ProgressMessage::AddProgress(done, total));
    }

    /// Add to the hidden progress.
    pub fn add_hidden_progress(&self, done: u32, total: u32) {
        self.msg(ProgressMessage::AddHiddenProgress(done, total));
    }

    /// Add to the visible expected units of work.
    pub fn add_total(&self, total: u32) {
        self.msg(ProgressMessage::AddTotal(total));
    }

    /// Add to the visible completed units of work.
    pub fn add_done(&self, done: u32) {
        self.msg(ProgressMessage::AddDone(done));
    }

    /// Add to the hidden expected units of work.
    pub fn add_hidden_total(&self, total: u32) {
        self.msg(ProgressMessage::AddHiddenTotal(total));
    }

    /// Add to the hidden completed units of work.
    pub fn add_hidden_done(&self, done: u32) {
        self.msg(ProgressMessage::AddHiddenDone(done));
    }
}

} // verus!
