use buck2_logic::task_critical::{CancellationReason, DependedOnByResult, DiceTaskInternalCritical, SlabId};

#[test]
fn dependants_are_registered_and_listed() {
    let mut t = DiceTaskInternalCritical::new();
    let r1 = t.depended_on_by(None, 10, 100);
    let r2 = t.depended_on_by(None, 20, 200);
    assert!(matches!(r1, DependedOnByResult::Pending(SlabId::Dependants(_), 100)));
    assert!(matches!(r2, DependedOnByResult::Pending(SlabId::Dependants(_), 200)));
    let mut keys = t.get_waiters_copy().unwrap();
    keys.sort();
    assert_eq!(keys, vec![10, 20]);
}

#[test]
fn cancelled_task_registers_nothing() {
    let mut t = DiceTaskInternalCritical::new();
    let r = t.depended_on_by(Some(CancellationReason::AllObserversDropped), 1, 2);
    assert_eq!(r, DependedOnByResult::Cancelled(CancellationReason::AllObserversDropped));
    assert_eq!(t.get_waiters_copy(), Some(vec![]));
}

#[test]
fn dropping_last_dependant_cancels() {
    let mut t = DiceTaskInternalCritical::new();
    let a = match t.depended_on_by(None, 1, 11) {
        DependedOnByResult::Pending(id, _) => id,
        other => panic!("unexpected {:?}", other),
    };
    let b = match t.depended_on_by(None, 2, 12) {
        DependedOnByResult::Pending(id, _) => id,
        other => panic!("unexpected {:?}", other),
    };
    assert_eq!(t.drop_waiter(a), None);
    assert_eq!(t.drop_waiter(b), Some(CancellationReason::AllDependentsDropped));
}

#[test]
fn dropping_last_observer_cancels() {
    let mut t = DiceTaskInternalCritical::new();
    let (id, token) = t.await_termination(5).unwrap();
    assert_eq!(token, 5);
    assert!(matches!(id, SlabId::TerminationObserver(_)));
    assert_eq!(t.drop_waiter(id), Some(CancellationReason::AllObserversDropped));
}

#[test]
fn finishing_wakes_everyone_and_closes_registries() {
    let mut t = DiceTaskInternalCritical::new();
    t.depended_on_by(None, 1, 101);
    t.depended_on_by(None, 2, 102);
    t.await_termination(201).unwrap();
    let (mut deps, obs) = t.wake_dependents();
    deps.sort();
    assert_eq!(deps, vec![101, 102]);
    assert_eq!(obs, vec![201]);
    assert_eq!(t.depended_on_by(None, 3, 103), DependedOnByResult::Finished);
    assert_eq!(t.await_termination(202), None);
    assert_eq!(t.get_waiters_copy(), None);
    assert_eq!(t.drop_waiter(SlabId::Dependants(0)), None);
    assert_eq!(t.drop_waiter(SlabId::TerminationObserver(0)), None);
}

#[test]
fn dropped_dependant_is_not_woken() {
    let mut t = DiceTaskInternalCritical::new();
    let a = match t.depended_on_by(None, 1, 11) {
        DependedOnByResult::Pending(id, _) => id,
        other => panic!("unexpected {:?}", other),
    };
    t.depended_on_by(None, 2, 12);
    t.drop_waiter(a);
    let (deps, obs) = t.wake_dependents();
    assert_eq!(deps, vec![12]);
    assert!(obs.is_empty());
}

#[test]
fn shared_tokens_are_woken_once_per_registration() {
    let mut t = DiceTaskInternalCritical::new();
    t.depended_on_by(None, 1, 7);
    t.depended_on_by(None, 1, 7);
    t.depended_on_by(None, 2, 8);
    assert_eq!(t.get_waiters_copy(), Some(vec![1, 1, 2]));
    assert!(!t.is_finished());
    let (deps, obs) = t.wake_dependents();
    assert_eq!(deps, vec![7, 7, 8]);
    assert!(obs.is_empty());
    assert!(t.is_finished());
}

#[test]
fn only_present_registrations_may_be_dropped() {
    let mut t = DiceTaskInternalCritical::new();
    let id = match t.depended_on_by(None, 1, 2) {
        DependedOnByResult::Pending(id, _) => id,
        other => panic!("unexpected {:?}", other),
    };
    assert!(t.can_drop_waiter(id));
    assert!(!t.can_drop_waiter(SlabId::TerminationObserver(0)));
    t.drop_waiter(id);
    assert!(!t.can_drop_waiter(id));
    t.wake_dependents();
    assert!(t.can_drop_waiter(id));
}
