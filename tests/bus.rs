use cansat::bus::BusArbiter;

#[test]
fn second_task_is_refused_while_bus_is_held() {
    let mut bus = BusArbiter::new();
    assert!(bus.acquire(1));
    assert!(!bus.acquire(2));
    assert!(!bus.transfer(2, 0xAA));
    assert!(!bus.release(2));
    assert_eq!(bus.current_holder(), Some(1));
    assert!(bus.transfer(1, 0x10));
    assert!(bus.release(1));
    assert_eq!(bus.current_holder(), None);
    assert!(bus.acquire(2));
    assert!(bus.transfer(2, 0xAA));
}

#[test]
fn transaction_frees_bus_afterwards() {
    let mut bus = BusArbiter::new();
    assert!(bus.transaction(1, &vec![1, 2, 3]));
    assert_eq!(bus.current_holder(), None);
    assert!(bus.transaction(2, &vec![]));
    assert_eq!(bus.current_holder(), None);
}

#[test]
fn transaction_is_refused_on_held_bus() {
    let mut bus = BusArbiter::new();
    assert!(bus.acquire(7));
    assert!(!bus.transaction(1, &vec![1, 2]));
    assert_eq!(bus.current_holder(), Some(7));
}
