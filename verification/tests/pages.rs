use demikernel::page::WakerPage;

/// A wake delivered before `take_notified` is observed exactly once.
#[test]
fn test_wake_observed_exactly_once() {
    let mut page = WakerPage::new();
    page.wake(5);
    let taken = page.take_notified();
    assert_eq!(taken, 1u64 << 5);
    // The wake was consumed: a second scan sees nothing.
    assert_eq!(page.take_notified(), 0);
}

/// Setting a notification bit is idempotent.
#[test]
fn test_wake_idempotent() {
    let mut page = WakerPage::new();
    page.wake(9);
    page.wake(9);
    assert_eq!(page.take_notified(), 1u64 << 9);
}

/// `initialize` clears all three bits and sets notified.
#[test]
fn test_initialize_sets_notified() {
    let mut page = WakerPage::new();
    page.mark_completed(3);
    page.mark_dropped(3);
    page.initialize(3);
    assert!(!page.has_completed(3));
    assert!(!page.was_dropped(3));
    assert_eq!(page.take_notified(), 1u64 << 3);
}

/// `mark_completed` sets the completed bit and clears notified.
#[test]
fn test_mark_completed_clears_notified() {
    let mut page = WakerPage::new();
    page.initialize(7);
    page.mark_completed(7);
    assert!(page.has_completed(7));
    assert_eq!(page.take_notified(), 0);
}

/// The three masks are independently settable; `clear` resets a slot.
#[test]
fn test_masks_independent_and_clear() {
    let mut page = WakerPage::new();
    page.wake(1);
    page.mark_completed(2);
    page.mark_dropped(4);
    assert!(!page.has_completed(1));
    assert!(page.has_completed(2));
    assert!(!page.was_dropped(2));
    assert!(page.was_dropped(4));
    page.clear(2);
    page.clear(4);
    assert!(!page.has_completed(2));
    assert!(!page.was_dropped(4));
    assert_eq!(page.take_notified(), 1u64 << 1);
    assert_eq!(page.take_dropped(), 0);
}

/// `take_dropped` reads and clears the dropped mask.
#[test]
fn test_take_dropped() {
    let mut page = WakerPage::new();
    page.mark_dropped(0);
    page.mark_dropped(63);
    assert_eq!(page.take_dropped(), (1u64 << 63) | 1);
    assert_eq!(page.take_dropped(), 0);
}
