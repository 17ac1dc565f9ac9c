use iyes_progress::{
    apply_progress_from_entities, asset_done, clear_global_progress, dummy_system_count_frames,
    dummy_system_wait_frames, sum_entities, transition_if_ready, AssetLoadState,
    DependencyLoadState, EntryIdAllocator, HiddenProgress, Progress, ProgressEntity,
    ProgressPlugin, ProgressTracker,
};

#[test]
fn plugin_defaults() {
    let p = ProgressPlugin::new();
    assert!(p.auto_clear_on_enter());
    assert!(!p.auto_clear_on_exit());
    assert!(!p.asset_tracking());
    assert!(!p.auto_clear_assets_on_enter());
    assert!(p.auto_clear_assets_on_exit());
    assert_eq!(p, ProgressPlugin::default());
}

#[test]
fn plugin_builders() {
    let p = ProgressPlugin::new().auto_clear(false, true).auto_clear_assets(true, false).with_asset_tracking();
    assert!(!p.auto_clear_on_enter());
    assert!(p.auto_clear_on_exit());
    assert!(p.auto_clear_assets_on_enter());
    assert!(!p.auto_clear_assets_on_exit());
    assert!(p.asset_tracking());
    let mut q = p;
    q.set_auto_clear(true, true);
    q.set_auto_clear_assets(false, false);
    q.set_asset_tracking(false);
    assert!(q.auto_clear_on_enter() && q.auto_clear_on_exit());
    assert!(!q.auto_clear_assets_on_enter() && !q.auto_clear_assets_on_exit());
    assert!(!q.asset_tracking());
}

#[test]
fn transition_waits_for_readiness() {
    let mut alloc = EntryIdAllocator::new();
    let id = alloc.allocate().unwrap();
    let mut t = ProgressTracker::new();
    t.set_progress(id, 1, 2);
    assert_eq!(transition_if_ready(&t, Some("done")), None);
    t.add_done(id, 1);
    assert_eq!(transition_if_ready(&t, Some("done")), Some("done"));
    assert_eq!(transition_if_ready::<&str>(&t, None), None);
}

#[test]
fn clearing_resets_everything() {
    let mut alloc = EntryIdAllocator::new();
    let id = alloc.allocate().unwrap();
    let mut t = ProgressTracker::new();
    t.set_progress(id, 0, 2);
    assert!(!t.is_ready());
    clear_global_progress(&mut t);
    assert!(t.is_ready());
    assert_eq!(t.get_global_combined_progress(), Progress::default());
}

#[test]
fn entity_builders_and_sum() {
    let a = ProgressEntity::new().with_progress(1, 2).with_hidden_progress(0, 1);
    let b = ProgressEntity::default().with_progress(2, 2);
    assert_eq!(a.visible, Progress { done: 1, total: 2 });
    assert_eq!(a.hidden, HiddenProgress(Progress { done: 0, total: 1 }));
    let sum = sum_entities(&vec![a, b]);
    assert_eq!(sum.0, Progress { done: 3, total: 4 });
    assert_eq!(sum.1, HiddenProgress(Progress { done: 0, total: 1 }));
    assert_eq!(sum_entities(&vec![]).0, Progress::default());
}

#[test]
fn entity_sum_replaces_its_entry() {
    let mut alloc = EntryIdAllocator::new();
    let id = alloc.allocate().unwrap();
    let mut t = ProgressTracker::new();
    let es = vec![ProgressEntity::new().with_progress(1, 1), ProgressEntity::new().with_hidden_progress(1, 3)];
    apply_progress_from_entities(&mut t, id, &es);
    assert_eq!(t.get_global_combined_progress(), Progress { done: 2, total: 4 });
    apply_progress_from_entities(&mut t, id, &vec![ProgressEntity::new().with_progress(0, 1)]);
    assert_eq!(t.get_global_progress(), Progress { done: 0, total: 1 });
    assert_eq!(t.get_global_hidden_progress(), HiddenProgress::default());
}

#[test]
fn asset_states() {
    assert!(asset_done(AssetLoadState::NotLoaded, DependencyLoadState::Loading, false, true));
    assert!(!asset_done(AssetLoadState::Loading, DependencyLoadState::Loaded, true, true));
    assert!(asset_done(AssetLoadState::Failed, DependencyLoadState::Failed, true, true));
    assert!(!asset_done(AssetLoadState::Failed, DependencyLoadState::Failed, false, true));
    assert!(asset_done(AssetLoadState::Loaded, DependencyLoadState::Loading, true, false));
    assert!(!asset_done(AssetLoadState::Loaded, DependencyLoadState::Loading, true, true));
    assert!(asset_done(AssetLoadState::Loaded, DependencyLoadState::Loaded, false, true));
    assert!(asset_done(AssetLoadState::Loaded, DependencyLoadState::Failed, true, true));
    assert!(!asset_done(AssetLoadState::Loaded, DependencyLoadState::Failed, false, true));
    assert!(!asset_done(AssetLoadState::Loaded, DependencyLoadState::NotLoaded, true, true));
}

#[test]
fn waiting_for_frames() {
    let mut count = 0u32;
    assert_eq!(dummy_system_wait_frames::<1>(&mut count), Progress { done: 1, total: 1 });
    assert_eq!(dummy_system_wait_frames::<1>(&mut count), Progress { done: 1, total: 1 });
    assert_eq!(dummy_system_wait_frames::<1>(&mut count), Progress { done: 0, total: 1 });
    assert_eq!(count, 3);
}

#[test]
fn counting_frames() {
    let mut count = 0u32;
    assert_eq!(dummy_system_count_frames::<2>(&mut count), Progress { done: 0, total: 2 });
    assert_eq!(dummy_system_count_frames::<2>(&mut count), Progress { done: 1, total: 2 });
    assert_eq!(dummy_system_count_frames::<2>(&mut count), Progress { done: 2, total: 2 });
    assert_eq!(dummy_system_count_frames::<2>(&mut count), Progress { done: 2, total: 2 });
    assert_eq!(count, 3);
}
