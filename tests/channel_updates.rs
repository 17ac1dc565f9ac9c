use iyes_progress::{EntryIdAllocator, Progress, ProgressMessage, ProgressTracker};

#[test]
fn channel_ordering() {
    let mut alloc = EntryIdAllocator::new();
    let id = alloc.allocate().unwrap();
    let mut t = ProgressTracker::new();
    let sender = t.new_async_entry(id);
    assert_eq!(sender.id(), id);
    sender.add_done(1);
    sender.add_done(1);
    assert_eq!(t.get_done(id), 0);
    t.recv_progress_msgs();
    assert_eq!(t.get_done(id), 2);
}

#[test]
fn set_after_add_through_one_handle_keeps_send_order() {
    let mut alloc = EntryIdAllocator::new();
    let id = alloc.allocate().unwrap();
    let mut t = ProgressTracker::new();
    let sender = t.new_async_entry(id);
    sender.add_progress(4, 4);
    sender.set_progress(1, 9);
    sender.add_total(1);
    sender.set_hidden_progress(2, 3);
    sender.add_hidden_done(1);
    t.recv_progress_msgs();
    assert_eq!(t.get_progress(id), Progress { done: 1, total: 10 });
    assert_eq!(t.get_hidden_done(id), 3);
    assert_eq!(t.get_hidden_total(id), 3);
}

#[test]
fn every_message_kind_reaches_the_store() {
    let mut alloc = EntryIdAllocator::new();
    let id = alloc.allocate().unwrap();
    let mut t = ProgressTracker::new();
    let s = t.new_async_entry(id);
    s.set_total(10);
    s.set_done(4);
    s.add_done(1);
    s.set_hidden_total(6);
    s.set_hidden_done(2);
    s.add_hidden_total(1);
    s.add_hidden_progress(1, 1);
    s.add_progress(0, 2);
    t.recv_progress_msgs();
    assert_eq!(t.get_progress(id), Progress { done: 5, total: 12 });
    assert_eq!(t.get_hidden_progress(id).0, Progress { done: 3, total: 8 });
    assert_eq!(t.get_global_combined_progress(), Progress { done: 8, total: 20 });
}

#[test]
fn many_senders_many_messages() {
    let mut alloc = EntryIdAllocator::new();
    let id = alloc.allocate().unwrap();
    let mut t = ProgressTracker::new();
    let (n, m) = (6usize, 50usize);
    let senders: Vec<_> = (0..n).map(|_| t.new_async_entry(id).clone()).collect();
    for _ in 0..m {
        for s in &senders {
            s.add_progress(1, 1);
        }
    }
    t.recv_progress_msgs();
    let expected = (n * m) as u32;
    assert_eq!(t.get_progress(id), Progress { done: expected, total: expected });
    assert!(t.is_ready());
}

#[test]
fn draining_without_channel_changes_nothing() {
    let mut alloc = EntryIdAllocator::new();
    let id = alloc.allocate().unwrap();
    let mut t = ProgressTracker::new();
    t.set_progress(id, 1, 2);
    assert!(!t.has_async_entries());
    t.recv_progress_msgs();
    assert_eq!(t.get_progress(id), Progress { done: 1, total: 2 });
}

#[test]
fn draining_twice_applies_each_message_once() {
    let mut alloc = EntryIdAllocator::new();
    let id = alloc.allocate().unwrap();
    let mut t = ProgressTracker::new();
    let s = t.new_async_entry(id);
    assert!(t.has_async_entries());
    s.add_total(3);
    t.recv_progress_msgs();
    t.recv_progress_msgs();
    assert_eq!(t.get_total(id), 3);
}

#[test]
fn applying_a_batch_of_messages() {
    let mut alloc = EntryIdAllocator::new();
    let a = alloc.allocate().unwrap();
    let b = alloc.allocate().unwrap();
    let mut t = ProgressTracker::new();
    let batch = vec![
        (a, ProgressMessage::SetProgress(1, 2)),
        (b, ProgressMessage::AddHiddenProgress(0, 1)),
        (a, ProgressMessage::AddDone(1)),
        (b, ProgressMessage::SetHiddenDone(1)),
    ];
    t.apply_messages(&batch);
    assert_eq!(t.get_progress(a), Progress { done: 2, total: 2 });
    assert_eq!(t.get_hidden_progress(b).0, Progress { done: 1, total: 1 });
    assert!(t.is_ready());
}
