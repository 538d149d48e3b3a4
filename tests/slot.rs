use cansat::slot::{BroadcastSlot, WaitOutcome};

#[test]
fn second_signal_replaces_first() {
    let mut slot = BroadcastSlot::new();
    slot.signal('A');
    slot.signal('B');
    assert_eq!(slot.wait(1), WaitOutcome::Ready('B'));
}

#[test]
fn consumer_sees_only_latest_of_three() {
    let mut slot = BroadcastSlot::new();
    assert!(slot.signal("S1").is_empty());
    assert!(slot.signal("S2").is_empty());
    assert!(slot.signal("S3").is_empty());
    assert_eq!(slot.wait(1), WaitOutcome::Ready("S3"));
    assert_eq!(slot.wait(1), WaitOutcome::Suspended);
}

#[test]
fn wait_before_signal_suspends_until_first_signal() {
    let mut slot: BroadcastSlot<u32> = BroadcastSlot::new();
    assert!(!slot.signaled());
    assert_eq!(slot.wait(4), WaitOutcome::Suspended);
    assert_eq!(slot.waiting(), 1);
    assert_eq!(slot.signal(17), vec![(4, 17)]);
    assert_eq!(slot.waiting(), 0);
    assert!(!slot.signaled());
}

#[test]
fn two_waiters_resume_with_same_value() {
    let mut slot: BroadcastSlot<u32> = BroadcastSlot::new();
    assert_eq!(slot.wait(1), WaitOutcome::Suspended);
    assert_eq!(slot.wait(2), WaitOutcome::Suspended);
    assert_eq!(slot.wait(1), WaitOutcome::Suspended);
    assert_eq!(slot.waiting(), 2);
    assert_eq!(slot.signal(99), vec![(1, 99), (2, 99)]);
}

#[test]
fn value_is_kept_until_read() {
    let mut slot: BroadcastSlot<u32> = BroadcastSlot::new();
    slot.signal(5);
    assert!(slot.signaled());
    assert_eq!(slot.wait(3), WaitOutcome::Ready(5));
    assert!(!slot.signaled());
}
