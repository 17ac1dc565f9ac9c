use iyes_progress::{
    ApplyProgress, EntryIdAllocator, HiddenProgress, Progress, ProgressEntryId, ProgressTracker,
};

fn ids(n: usize) -> Vec<ProgressEntryId> {
    let mut alloc = EntryIdAllocator::new();
    (0..n).map(|_| alloc.allocate().unwrap()).collect()
}

#[test]
fn allocator_hands_out_distinct_increasing_ids() {
    let v = ids(3);
    assert_eq!(v[0].index(), 0);
    assert_eq!(v[1].index(), 1);
    assert_eq!(v[2].index(), 2);
    assert_ne!(v[0], v[1]);
}

#[test]
fn unknown_id_defaults() {
    let v = ids(2);
    let mut t = ProgressTracker::new();
    t.set_progress(v[0], 1, 2);
    assert_eq!(t.get_progress(v[1]), Progress::default());
    assert_eq!(t.get_hidden_progress(v[1]), HiddenProgress::default());
    assert_eq!(t.get_combined_progress(v[1]), Progress::default());
    assert_eq!(t.get_total(v[1]), 0);
    assert_eq!(t.get_done(v[1]), 0);
    assert!(!t.is_id_ready(v[1]));
    assert!(!t.contains_id(v[1]));
    assert!(t.contains_id(v[0]));
}

#[test]
fn delta_correctness() {
    let v = ids(2);
    let mut t = ProgressTracker::new();
    t.set_progress(v[1], 1, 4);
    t.set_progress(v[0], 3, 10);
    let before = t.get_global_progress();
    t.set_progress(v[0], 5, 10);
    let after = t.get_global_progress();
    assert_eq!(after.done, before.done + 2);
    assert_eq!(after.total, before.total);
    assert_eq!(after, Progress { done: 6, total: 14 });
}

#[test]
fn lowering_a_value_lowers_the_sum() {
    let v = ids(1);
    let mut t = ProgressTracker::new();
    t.set_progress(v[0], 5, 10);
    t.set_progress(v[0], 2, 3);
    assert_eq!(t.get_global_progress(), Progress { done: 2, total: 3 });
}

#[test]
fn hidden_exclusion() {
    let v = ids(1);
    let mut t = ProgressTracker::new();
    t.set_hidden_progress(v[0], 1, 1);
    assert_eq!(t.get_global_progress(), Progress { done: 0, total: 0 });
    assert_eq!(t.get_global_hidden_progress(), HiddenProgress(Progress { done: 1, total: 1 }));
    assert_eq!(t.get_global_combined_progress(), Progress { done: 1, total: 1 });
    assert!(t.is_ready());
}

#[test]
fn clear_twice_equals_clear_once() {
    let v = ids(2);
    let mut t = ProgressTracker::new();
    t.set_progress(v[0], 1, 3);
    t.add_hidden_progress(v[1], 2, 2);
    t.clear();
    let once = (t.get_global_progress(), t.get_global_hidden_progress(), t.contains_id(v[0]));
    t.clear();
    let twice = (t.get_global_progress(), t.get_global_hidden_progress(), t.contains_id(v[0]));
    assert_eq!(once, twice);
    assert_eq!(twice.0, Progress::default());
    assert_eq!(twice.1, HiddenProgress::default());
    assert!(!twice.2);
    assert!(t.is_ready());
}

#[test]
fn global_sum_matches_entries_after_mixed_operations() {
    let v = ids(4);
    let mut t = ProgressTracker::new();
    t.set_progress(v[0], 3, 10);
    t.add_total(v[1], 4);
    t.add_done(v[1], 1);
    t.set_hidden_total(v[2], 6);
    t.add_hidden_done(v[2], 2);
    t.set_done(v[0], 7);
    t.set_total(v[3], 2);
    t.add_progress(v[3], 1, 1);
    t.set_hidden_done(v[3], 5);
    t.add_hidden_total(v[3], 5);
    t.add_hidden_progress(v[0], 1, 2);
    t.set_hidden_progress(v[1], 0, 1);
    let mut expected = Progress::default();
    for id in &v {
        expected = expected + t.get_progress(*id) + t.get_hidden_progress(*id).0;
        assert_eq!(t.get_combined_progress(*id), t.get_progress(*id) + t.get_hidden_progress(*id).0);
    }
    assert_eq!(t.get_global_combined_progress(), expected);
    assert_eq!(expected, Progress { done: 17, total: 31 });
    assert_eq!(t.get_global_progress(), Progress { done: 9, total: 17 });
    assert_eq!(t.get_global_hidden_progress(), HiddenProgress(Progress { done: 8, total: 14 }));
    assert_eq!(t.get_hidden_total(v[3]), 5);
    assert_eq!(t.get_hidden_done(v[3]), 5);
}

#[test]
fn sums_wrap_around() {
    let v = ids(2);
    let mut t = ProgressTracker::new();
    t.set_done(v[0], u32::MAX);
    t.set_done(v[1], 3);
    assert_eq!(t.get_global_progress().done, 2);
    t.set_done(v[1], 0);
    assert_eq!(t.get_global_progress().done, u32::MAX);
}

#[test]
fn entry_readiness_combines_both_sides() {
    let v = ids(1);
    let mut t = ProgressTracker::new();
    t.set_progress(v[0], 2, 2);
    assert!(t.is_id_ready(v[0]));
    t.set_hidden_progress(v[0], 0, 1);
    assert!(!t.is_id_ready(v[0]));
    assert!(!t.is_ready());
    t.add_hidden_done(v[0], 1);
    assert!(t.is_id_ready(v[0]));
    assert!(t.is_ready());
}

#[test]
fn concurrent_style_adds_accumulate() {
    let v = ids(1);
    let mut t = ProgressTracker::default();
    let (n, m) = (8u32, 125u32);
    for _ in 0..n {
        for _ in 0..m {
            t.add_progress(v[0], 1, 1);
        }
    }
    assert_eq!(t.get_progress(v[0]), Progress { done: n * m, total: n * m });
    assert_eq!(t.get_global_progress(), Progress { done: n * m, total: n * m });
}

#[test]
fn returned_values_overwrite_the_entry() {
    let v = ids(1);
    let mut t = ProgressTracker::new();
    Progress { done: 1, total: 3 }.apply_progress(&mut t, v[0]);
    HiddenProgress(Progress { done: 2, total: 2 }).apply_progress(&mut t, v[0]);
    assert_eq!(t.get_combined_progress(v[0]), Progress { done: 3, total: 5 });
    (Progress { done: 3, total: 3 }, HiddenProgress(Progress { done: 0, total: 1 })).apply_progress(&mut t, v[0]);
    assert_eq!(t.get_progress(v[0]), Progress { done: 3, total: 3 });
    assert_eq!(t.get_hidden_progress(v[0]), HiddenProgress(Progress { done: 0, total: 1 }));
    assert_eq!(t.get_global_combined_progress(), Progress { done: 3, total: 4 });
}

#[test]
fn foreach_entry_rewrites_entries_and_sums() {
    let v = ids(3);
    let mut t = ProgressTracker::new();
    t.set_progress(v[0], 1, 4);
    t.set_hidden_progress(v[1], 0, 2);
    t.foreach_entry(|id, visible, hidden| {
        if id == v[0] {
            (Progress { done: visible.total, total: visible.total }, hidden)
        } else {
            (visible, HiddenProgress(Progress { done: hidden.0.total, total: hidden.0.total }))
        }
    });
    assert_eq!(t.get_progress(v[0]), Progress { done: 4, total: 4 });
    assert_eq!(t.get_hidden_progress(v[1]), HiddenProgress(Progress { done: 2, total: 2 }));
    assert!(!t.contains_id(v[2]));
    assert_eq!(t.get_global_combined_progress(), Progress { done: 6, total: 6 });
    assert!(t.is_ready());
}
