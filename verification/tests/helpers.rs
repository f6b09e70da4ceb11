use deconz::helpers::{Awaiting, IncrementingId};

#[test]
fn incrementing_id_counts_from_zero_and_wraps() {
    let mut ids = IncrementingId::new();
    assert_eq!(ids.next(), 0);
    assert_eq!(ids.next(), 1);
    for _ in 2..=255 {
        ids.next();
    }
    assert_eq!(ids.next(), 0);
    assert_eq!(ids.next(), 1);
}

#[test]
fn awaiting_stores_and_yields_each_slot_once() {
    let mut table: Awaiting<&'static str> = Awaiting::new();
    assert_eq!(table.len(), 0);
    assert!(table.register(3, "three").is_none());
    assert!(table.register(7, "seven").is_none());
    assert_eq!(table.len(), 2);
    assert!(table.contains(3));
    assert_eq!(table.deregister(3), Some("three"));
    assert!(!table.contains(3));
    assert_eq!(table.deregister(3), None);
    assert_eq!(table.deregister(7), Some("seven"));
    assert_eq!(table.len(), 0);
}

#[test]
fn registering_twice_displaces_the_old_slot() {
    let mut table: Awaiting<u32> = Awaiting::new();
    assert_eq!(table.register(1, 10), None);
    assert_eq!(table.register(1, 20), Some(10));
    assert_eq!(table.deregister(1), Some(20));
}
