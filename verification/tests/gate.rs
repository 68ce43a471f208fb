use ofx_registry::gate::DispatchGateState;

#[test]
fn dispatch_gate_allows_same_thread_reentry() {
    let mut gate = DispatchGateState::new();
    let outer = gate.enter(1);
    let inner = gate.enter(1);
    assert!(outer);
    assert!(inner);
    assert_eq!(gate.depth(), 2);
}

#[test]
fn gate_keeps_other_threads_out() {
    let mut gate = DispatchGateState::new();
    assert!(gate.enter(1));
    assert!(!gate.enter(2));
    assert_eq!(gate.depth(), 1);
    assert!(gate.enter(1));
    assert!(!gate.enter(2));
    assert_eq!(gate.depth(), 2);
}

#[test]
fn gate_is_released_by_the_last_leave() {
    let mut gate = DispatchGateState::new();
    assert!(gate.enter(7));
    assert!(gate.enter(7));
    assert!(gate.enter(7));
    assert!(!gate.leave());
    assert!(!gate.leave());
    assert!(!gate.enter(8));
    assert!(gate.leave());
    assert_eq!(gate.depth(), 0);
    assert!(gate.enter(8));
    assert!(!gate.enter(7));
}

#[test]
fn leaving_undoes_entering() {
    let mut gate = DispatchGateState::new();
    assert!(gate.enter(3));
    assert!(gate.leave());
    assert_eq!(gate.depth(), 0);
    assert!(gate.enter(4));
}
