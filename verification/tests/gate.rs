use gpio_async::error::{DecodeError, Error};
use gpio_async::gate::{GateState, Readiness, ReadinessGate};

fn registered() -> ReadinessGate {
    let mut gate = ReadinessGate::new();
    gate.register();
    gate
}

#[test]
fn new_gate_is_unregistered() {
    let gate = ReadinessGate::new();
    assert_eq!(gate.state(), GateState::Unregistered);
    assert!(!gate.is_open());
    assert!(!gate.needs_os_wait());
}

#[test]
fn register_moves_to_awaiting_ready() {
    let mut gate = ReadinessGate::new();
    gate.register();
    assert_eq!(gate.state(), GateState::AwaitingReady);
    assert!(gate.needs_os_wait());
    assert!(!gate.is_open());
}

#[test]
fn register_keeps_an_open_epoch() {
    let mut gate = registered();
    assert_eq!(gate.poll_readable(Ok(Readiness::Ready)), Ok(Readiness::Ready));
    gate.register();
    assert_eq!(gate.state(), GateState::ReadyEpochOpen);
}

#[test]
fn poll_pending_leaves_gate_closed() {
    let mut gate = registered();
    assert_eq!(gate.poll_readable(Ok(Readiness::Pending)), Ok(Readiness::Pending));
    assert_eq!(gate.state(), GateState::AwaitingReady);
}

#[test]
fn poll_ready_opens_epoch() {
    let mut gate = registered();
    assert_eq!(gate.poll_readable(Ok(Readiness::Ready)), Ok(Readiness::Ready));
    assert_eq!(gate.state(), GateState::ReadyEpochOpen);
    assert!(gate.is_open());
    assert!(!gate.needs_os_wait());
}

#[test]
fn poll_error_is_surfaced_and_gate_unchanged() {
    let mut gate = registered();
    assert_eq!(gate.poll_readable(Err(Error::Io(9))), Err(Error::Io(9)));
    assert_eq!(gate.state(), GateState::AwaitingReady);
}

#[test]
fn open_epoch_resolves_without_the_reactor() {
    let mut gate = registered();
    assert_eq!(gate.poll_readable(Ok(Readiness::Ready)), Ok(Readiness::Ready));
    assert_eq!(gate.poll_readable(Ok(Readiness::Pending)), Ok(Readiness::Ready));
    assert_eq!(gate.poll_readable(Err(Error::Io(5))), Ok(Readiness::Ready));
    assert_eq!(gate.state(), GateState::ReadyEpochOpen);
}

#[test]
fn clear_rearms_the_gate() {
    let mut gate = registered();
    assert_eq!(gate.poll_readable(Ok(Readiness::Ready)), Ok(Readiness::Ready));
    gate.clear();
    assert_eq!(gate.state(), GateState::AwaitingReady);
    assert_eq!(gate.poll_readable(Ok(Readiness::Pending)), Ok(Readiness::Pending));
}

#[test]
fn clear_without_epoch_changes_nothing() {
    let mut gate = registered();
    gate.clear();
    assert_eq!(gate.state(), GateState::AwaitingReady);
    let mut unregistered = ReadinessGate::new();
    unregistered.clear();
    assert_eq!(unregistered.state(), GateState::Unregistered);
}

#[test]
fn cancelled_wait_on_ready_descriptor_resolves_at_once() {
    let mut gate = registered();
    assert_eq!(gate.poll_readable(Ok(Readiness::Ready)), Ok(Readiness::Ready));
    // a suspension is begun and dropped: nothing is called, the epoch stays
    assert_eq!(gate.state(), GateState::ReadyEpochOpen);
    assert_eq!(gate.poll_readable(Ok(Readiness::Pending)), Ok(Readiness::Ready));
}

#[test]
fn cancelled_wait_on_cleared_descriptor_suspends_until_notified() {
    let mut gate = registered();
    assert_eq!(gate.poll_readable(Ok(Readiness::Ready)), Ok(Readiness::Ready));
    gate.clear();
    // the in-flight suspension pends and is dropped
    assert_eq!(gate.poll_readable(Ok(Readiness::Pending)), Ok(Readiness::Pending));
    assert_eq!(gate.state(), GateState::AwaitingReady);
    // a fresh one still pends, until the reactor reports readiness
    assert_eq!(gate.poll_readable(Ok(Readiness::Pending)), Ok(Readiness::Pending));
    assert_eq!(gate.poll_readable(Ok(Readiness::Ready)), Ok(Readiness::Ready));
    assert_eq!(gate.state(), GateState::ReadyEpochOpen);
}

#[test]
fn only_io_errors_are_terminal() {
    assert!(Error::Io(5).is_terminal());
    assert!(!Error::Decode(DecodeError::Malformed(7)).is_terminal());
    assert!(!Error::Decode(DecodeError::Truncated { expected: 4, found: 1 }).is_terminal());
    assert!(!Error::Decode(DecodeError::Overrun { capacity: 4, found: 8 }).is_terminal());
}
