use libterm::dirty::DirtyTracker;

#[test]
fn test_new_all_dirty() {
    let dt = DirtyTracker::new(24);
    assert!(dt.has_dirty());
    assert!(dt.is_dirty(0));
    assert_eq!(dt.dirty_count(), 24);
}

#[test]
fn test_clear_then_mark() {
    let mut dt = DirtyTracker::new(10);
    dt.clear();
    assert!(!dt.has_dirty());
    assert!(!dt.is_dirty(0));
    assert_eq!(dt.dirty_count(), 0);

    dt.mark_row(3);
    assert!(dt.has_dirty());
    assert!(dt.is_dirty(3));
    assert!(!dt.is_dirty(4));
    assert_eq!(dt.dirty_count(), 1);
}

#[test]
fn test_mark_range() {
    let mut dt = DirtyTracker::new(10);
    dt.clear();
    dt.mark_range(2, 5);
    assert!(dt.is_dirty(2));
    assert!(dt.is_dirty(4));
    assert!(!dt.is_dirty(5));
    assert_eq!(dt.dirty_count(), 3);
}

#[test]
fn test_resize() {
    let mut dt = DirtyTracker::new(10);
    dt.clear();
    dt.resize(20);
    assert!(dt.has_dirty());
    assert_eq!(dt.dirty_count(), 20);
}

#[test]
fn test_mark_all() {
    let mut dt = DirtyTracker::new(10);
    dt.clear();
    dt.mark_all();
    assert_eq!(dt.dirty_count(), 10);
    assert!(dt.is_dirty(9));
}
