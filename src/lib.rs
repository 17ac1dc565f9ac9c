//! Progress tracking for work that is spread over many independent tasks.
//!
//! Producers report fractional completion (`done` out of `total` units of
//! work) under an entry id. The [`ProgressTracker`] keeps the value of each
//! entry and a running sum of all of them, so that the overall readiness can
//! be read without walking every entry.

mod apply;
mod assets;
mod channel;
mod entity;
mod ids;
mod plugin;
mod progress;
mod send;
mod sums;
mod tracker;
mod utils;

pub use apply::ApplyProgress;
pub use assets::{asset_done, asset_done_spec, AssetLoadState, DependencyLoadState};
pub use entity::{apply_progress_from_entities, entity_sum, sum_entities, ProgressEntity};
pub use ids::{EntryIdAllocator, ProgressEntryId};
pub use send::{
    apply_message, apply_messages, updated_entry, AddressedMessage, ProgressMessage, ProgressSender,
};
pub use plugin::{clear_global_progress, transition_if_ready, ProgressPlugin};
pub use progress::{wrap, HiddenProgress, Progress};
pub use tracker::{
    rewritten_by,
    cleared, lemma_clear_idempotent, lemma_global_is_sum_of_entries, ProgressTracker,
};
pub use sums::{
    combined, combined_done, combined_sum, combined_total, empty_entry, entry_of, hidden_done,
    hidden_sum, hidden_total, lemma_combined_is_sum_of_entries, lemma_sum_insert, lemma_sum_linear,
    lemma_sums_after_write, sum_of, sum_over, visible_done, visible_sum, visible_total, Entry,
};
pub use utils::{dummy_system_count_frames, dummy_system_wait_frames};
