use sigscan::gate::{GateStatus, InitGate};

#[test]
fn zero_deadline_never_ready_times_out_at_once() {
    // A zero-duration deadline with an unsignalled readiness flag must
    // time out on the very first poll rather than block indefinitely.
    let gate = InitGate::new(Some(0));
    assert_eq!(gate.poll(0, false), GateStatus::TimedOut);
}

#[test]
fn readiness_always_wins() {
    let gate = InitGate::new(Some(0));
    assert_eq!(gate.poll(0, true), GateStatus::Ready);
    let gate = InitGate::new(None);
    assert_eq!(gate.poll(1_000_000, true), GateStatus::Ready);
}

#[test]
fn unbounded_gate_keeps_waiting() {
    let gate = InitGate::new(None);
    assert_eq!(gate.poll(u64::MAX, false), GateStatus::StillWaiting);
}

#[test]
fn finite_deadline_waits_until_elapsed() {
    let gate = InitGate::new(Some(100));
    assert_eq!(gate.poll(99, false), GateStatus::StillWaiting);
    assert_eq!(gate.poll(100, false), GateStatus::TimedOut);
    assert_eq!(gate.poll(101, false), GateStatus::TimedOut);
}
