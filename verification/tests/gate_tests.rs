use code_runner::gate::{admission_timed_out, Gate};

#[test]
fn admission_timeout_is_inclusive() {
    assert!(!admission_timed_out(9_999, 10_000));
    assert!(admission_timed_out(10_000, 10_000));
    assert!(admission_timed_out(10_001, 10_000));
}

#[test]
fn free_slots_are_granted_at_once() {
    let mut g = Gate::new(2);
    let a = g.submit(1);
    let b = g.submit(2);
    assert!(a.is_some());
    assert!(b.is_some());
    assert_eq!(a.unwrap().requester_id, 1);
    assert_eq!(g.active, 2);
}

#[test]
fn one_request_over_capacity_waits_and_is_served_next() {
    let mut g = Gate::new(2);
    let a = g.submit(1).unwrap();
    let b = g.submit(2).unwrap();
    let c = g.submit(3);
    assert!(c.is_none());
    assert_eq!(g.waiting.len(), 1);
    assert_eq!(g.waiting[0], 3);
    let handed = g.release(a);
    assert_eq!(handed, Some(3));
    assert_eq!(g.active, 2);
    assert_eq!(g.waiting.len(), 0);
    let handed = g.release(b);
    assert_eq!(handed, None);
    assert_eq!(g.active, 1);
}

#[test]
fn waiters_are_served_in_arrival_order() {
    let mut g = Gate::new(1);
    let a = g.submit(1).unwrap();
    assert!(g.submit(2).is_none());
    assert!(g.submit(3).is_none());
    let first = g.release(a).unwrap();
    assert_eq!(first, 2);
    let b = code_runner::gate::QueueSlot { requester_id: first };
    let second = g.release(b).unwrap();
    assert_eq!(second, 3);
}

#[test]
fn a_timed_out_waiter_can_withdraw() {
    let mut g = Gate::new(1);
    let _a = g.submit(1).unwrap();
    assert!(g.submit(2).is_none());
    assert!(g.submit(3).is_none());
    assert!(g.cancel(2));
    assert_eq!(g.waiting.len(), 1);
    assert_eq!(g.waiting[0], 3);
    assert!(!g.cancel(2));
}
