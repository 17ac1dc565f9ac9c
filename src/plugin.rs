//! When stored progress is cleared, and when a tracked state is left.

use vstd::prelude::*;

use crate::sums::combined_sum;
use crate::tracker::{cleared, ProgressTracker};

verus! {

/// Settings of progress tracking for the states of one kind.
///
/// Stored progress persists from one cycle to the next; it is cleared only
/// when a tracked state is entered or exited, as these settings say. By
/// default it is cleared on entering and kept on exiting, and asset tracking
/// is off (its data, once on, is kept on entering and cleared on exiting).
#[derive(Debug, Clone, Copy, PartialEq, Eq, Structural)]
pub struct ProgressPlugin {
    autoclear_on_enter: bool,
    autoclear_on_exit: bool,
    track_assets: bool,
    autoclear_assets_on_enter: bool,
    autoclear_assets_on_exit: bool,
}

impl ProgressPlugin {
    /// Whether entering a tracked state clears the stored progress.
    pub closed spec fn clears_on_enter(&self) -> bool {
        self.autoclear_on_enter
    }

    /// Whether exiting a tracked state clears the stored progress.
    pub closed spec fn clears_on_exit(&self) -> bool {
        self.autoclear_on_exit
    }

    /// Whether the loading of assets is tracked.
    pub closed spec fn tracks_assets(&self) -> bool {
        self.track_assets
    }

    /// Whether entering a tracked state clears the asset tracking data.
    pub closed spec fn clears_assets_on_enter(&self) -> bool {
        self.autoclear_assets_on_enter
    }

    /// Whether exiting a tracked state clears the asset tracking data.
    pub closed spec fn clears_assets_on_exit(&self) -> bool {
        self.autoclear_assets_on_exit
    }

    /// The default settings.
    pub fn new() -> (r: ProgressPlugin)
        ensures
            r.clears_on_enter(),
            !r.clears_on_exit(),
            !r.tracks_assets(),
            !r.clears_assets_on_enter(),
            r.clears_assets_on_exit(),
    {
        ProgressPlugin {
            autoclear_on_enter: true,
            autoclear_on_exit: false,
            track_assets: false,
            autoclear_assets_on_enter: false,
            autoclear_assets_on_exit: true,
        }
    }

    /// Configure whether progress data is cleared when entering or exiting
    /// a tracked state (builder variant).
    pub fn auto_clear(self, on_enter: bool, on_exit: bool) -> (r: ProgressPlugin)
        ensures
            r.clears_on_enter() == on_enter,
            r.clears_on_exit() == on_exit,
            r.tracks_assets() == self.tracks_assets(),
            r.clears_assets_on_enter() == self.clears_assets_on_enter(),
            r.clears_assets_on_exit() == self.clears_assets_on_exit(),
    {
        let mut r = self;
        r.set_auto_clear(on_enter, on_exit);
        r
    }

    /// Configure whether progress data is cleared when entering or exiting
    /// a tracked state.
    pub fn set_auto_clear(&mut self, on_enter: bool, on_exit: bool)
        ensures
            final(self).clears_on_enter() == on_enter,
            final(self).clears_on_exit() == on_exit,
            final(self).tracks_assets() == old(self).tracks_assets(),
            final(self).clears_assets_on_enter() == old(self).clears_assets_on_enter(),
            final(self).clears_assets_on_exit() == old(self).clears_assets_on_exit(),
    {
        self.autoclear_on_enter = on_enter;
        self.autoclear_on_exit = on_exit;
    }

    /// Configure whether asset tracking data is cleared when entering or
    /// exiting a tracked state (builder variant).
    pub fn auto_clear_assets(self, on_enter: bool, on_exit: bool) -> (r: ProgressPlugin)
        ensures
            r.clears_on_enter() == self.clears_on_enter(),
            r.clears_on_exit() == self.clears_on_exit(),
            r.tracks_assets() == self.tracks_assets(),
            r.clears_assets_on_enter() == on_enter,
            r.clears_assets_on_exit() == on_exit,
    {
        let mut r = self;
        r.set_auto_clear_assets(on_enter, on_exit);
        r
    }

    /// Configure whether asset tracking data is cleared when entering or
    /// exiting a tracked state.
    pub fn set_auto_clear_assets(&mut self, on_enter: bool, on_exit: bool)
        ensures
            final(self).clears_on_enter() == old(self).clears_on_enter(),
            final(self).clears_on_exit() == old(self).clears_on_exit(),
            final(self).tracks_assets() == old(self).tracks_assets(),
            final(self).clears_assets_on_enter() == on_enter,
            final(self).clears_assets_on_exit() == on_exit,
    {
        self.autoclear_assets_on_enter = on_enter;
        self.autoclear_assets_on_exit = on_exit;
    }

    /// Set whether the loading of assets is tracked.
    pub fn set_asset_tracking(&mut self, asset_tracking: bool)
        ensures
            final(self).clears_on_enter() == old(self).clears_on_enter(),
            final(self).clears_on_exit() == old(self).clears_on_exit(),
            final(self).tracks_assets() == asset_tracking,
            final(self).clears_assets_on_enter() == old(self).clears_assets_on_enter(),
            final(self).clears_assets_on_exit() == old(self).clears_assets_on_exit(),
    {
        self.track_assets = asset_tracking;
    }

    /// Turn on the tracking of assets (builder variant).
    pub fn with_asset_tracking(self) -> (r: ProgressPlugin)
        ensures
            r.clears_on_enter() == self.clears_on_enter(),
            r.clears_on_exit() == self.clears_on_exit(),
            r.tracks_assets(),
            r.clears_assets_on_enter() == self.clears_assets_on_enter(),
            r.clears_assets_on_exit() == self.clears_assets_on_exit(),
    {
        let mut r = self;
        r.set_asset_tracking(true);
        r
    }

    /// Whether entering a tracked state clears the stored progress.
    pub fn auto_clear_on_enter(&self) -> (r: bool)
        ensures
            r == self.clears_on_enter(),
    {
        self.autoclear_on_enter
    }

    /// Whether exiting a tracked state clears the stored progress.
    pub fn auto_clear_on_exit(&self) -> (r: bool)
        ensures
            r == self.clears_on_exit(),
    {
        self.autoclear_on_exit
    }

    /// Whether the loading of assets is tracked.
    pub fn asset_tracking(&self) -> (r: bool)
        ensures
            r == self.tracks_assets(),
    {
        self.track_assets
    }

    /// Whether entering a tracked state clears the asset tracking data.
    pub fn auto_clear_assets_on_enter(&self) -> (r: bool)
        ensures
            r == self.clears_assets_on_enter(),
    {
        self.autoclear_assets_on_enter
    }

    /// Whether exiting a tracked state clears the asset tracking data.
    pub fn auto_clear_assets_on_exit(&self) -> (r: bool)
        ensures
            r == self.clears_assets_on_exit(),
    {
        self.autoclear_assets_on_exit
    }
}

impl Default for ProgressPlugin {
    fn default() -> (r: ProgressPlugin)
        ensures
            r.clears_on_enter(),
            !r.clears_on_exit(),
            !r.tracks_assets(),
            !r.clears_assets_on_enter(),
            r.clears_assets_on_exit(),
    {
        ProgressPlugin::new()
    }
}

/// Clears all progress data of `tracker`, as entering or exiting a tracked
/// state does where the settings ask for it.
pub fn clear_global_progress(tracker: &mut ProgressTracker)
    ensures
        final(tracker).wf(),
        final(tracker)@ == cleared(old(tracker)@),
        final(tracker).has_channel() == old(tracker).has_channel(),
{
    tracker.clear();
}

/// The state to move to at the end of a cycle: `to` (the target configured
/// for the current state, if any) once all tracked work is complete,
/// nothing before.
pub fn transition_if_ready<S>(tracker: &ProgressTracker, to: Option<S>) -> (r: Option<S>)
    requires
        tracker.wf(),
    ensures
        r == (if combined_sum(tracker@).ready() {
            to
        } else {
            None
        }),
{
    if tracker.is_ready() {
        to
    } else {
        None
    }
}

} // verus!
