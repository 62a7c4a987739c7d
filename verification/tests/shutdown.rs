use bamboo::shutdown::{Coordinator, Signal, Slot};

#[test]
fn a_fresh_coordinator_is_active_and_knows_no_unit() {
    let c = Coordinator::new();
    assert_eq!(c.signal(), Signal::Active);
    assert!(!c.is_cancelled());
    assert!(!c.is_drained());
    assert_eq!(c.units(), 0);
    assert_eq!(c.outstanding(), 0);
    assert_eq!(c.slot(0), None);
}

#[test]
fn cancel_is_idempotent() {
    let mut c = Coordinator::new();
    c.add_unit();
    let guard = c.new_guard_for(0).unwrap();
    let mut moves = 0;
    for _ in 0..10 {
        if c.cancel() {
            moves += 1;
        }
        assert_eq!(c.signal(), Signal::CancellationRequested);
        assert!(c.is_cancelled());
    }
    assert_eq!(moves, 1);
    assert_eq!(c.outstanding(), 1);
    assert_eq!(c.slot(0), Some(Slot::Running));
    assert!(c.complete(&guard));
}

#[test]
fn every_copy_of_a_guard_stands_for_the_same_unit() {
    let mut c = Coordinator::new();
    assert_eq!(c.add_unit(), 0);
    assert_eq!(c.add_unit(), 1);
    let guard = c.new_guard_for(1).unwrap();
    let copy = guard;
    assert_eq!(guard.unit(), 1);
    assert_eq!(copy, guard);
    assert_eq!(c.outstanding(), 1);
    assert!(c.complete(&copy));
    assert!(!c.complete(&guard));
    assert_eq!(c.outstanding(), 0);
    assert_eq!(c.slot(1), Some(Slot::Returned));
    assert_eq!(c.slot(0), Some(Slot::Vacant));
}

#[test]
fn a_guard_is_issued_once_for_a_known_unit() {
    let mut c = Coordinator::new();
    c.add_unit();
    assert!(c.new_guard_for(1).is_none());
    assert!(c.new_guard_for(0).is_some());
    assert!(c.new_guard_for(0).is_none());
    assert_eq!(c.outstanding(), 1);
}

#[test]
fn waiting_for_the_drain_with_no_unit_is_over_at_once() {
    let mut c = Coordinator::new();
    assert!(c.poll_all_drained());
    assert_eq!(c.signal(), Signal::Drained);
    assert!(c.is_drained());
    assert!(c.is_cancelled());
    assert!(!c.cancel());
    assert_eq!(c.signal(), Signal::Drained);
}

#[test]
fn the_drain_waits_for_every_running_unit() {
    let mut c = Coordinator::new();
    c.add_unit();
    c.add_unit();
    let first = c.new_guard_for(0).unwrap();
    let second = c.new_guard_for(1).unwrap();
    assert!(c.cancel());
    assert!(!c.poll_all_drained());
    assert_eq!(c.signal(), Signal::CancellationRequested);
    assert!(c.complete(&first));
    assert!(!c.poll_all_drained());
    assert!(c.complete(&second));
    assert!(c.poll_all_drained());
    assert_eq!(c.signal(), Signal::Drained);
    assert!(c.poll_all_drained());
}

#[test]
fn no_guard_is_issued_after_the_drain() {
    let mut c = Coordinator::new();
    c.add_unit();
    assert!(c.poll_all_drained());
    assert!(c.new_guard_for(0).is_none());
    assert_eq!(c.slot(0), Some(Slot::Vacant));
    assert_eq!(c.outstanding(), 0);
}
