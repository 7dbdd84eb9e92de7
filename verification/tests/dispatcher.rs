use hello_server::dispatcher::{
    AcceptAction, AcceptEvent, BindError, BindOutcome, Dispatcher, LoopState,
};

#[test]
fn successful_bind_enters_running_state() {
    let d = Dispatcher::start(BindOutcome::Bound).expect("bind succeeded");
    assert_eq!(d.state, LoopState::Running);
    assert_eq!(d.spawned, 0);
}

#[test]
fn address_in_use_fails_startup() {
    let r = Dispatcher::start(BindOutcome::AddrInUse);
    assert_eq!(r, Err(BindError::AddrInUse));
}

#[test]
fn permission_denied_fails_startup() {
    let r = Dispatcher::start(BindOutcome::PermissionDenied);
    assert_eq!(r, Err(BindError::PermissionDenied));
}

#[test]
fn invalid_address_fails_startup() {
    let r = Dispatcher::start(BindOutcome::InvalidAddress);
    assert_eq!(r, Err(BindError::InvalidAddress));
}

#[test]
fn each_accepted_connection_gets_a_distinct_task() {
    let mut d = Dispatcher::start(BindOutcome::Bound).expect("bind succeeded");
    let first = d.step(AcceptEvent::Accepted);
    let second = d.step(AcceptEvent::Accepted);
    assert_eq!(first, AcceptAction::SpawnTask(0));
    assert_eq!(second, AcceptAction::SpawnTask(1));
    assert_ne!(first, second);
    assert_eq!(d.state, LoopState::Running);
    assert_eq!(d.spawned, 2);
}

#[test]
fn transient_accept_failure_keeps_the_loop_running() {
    let mut d = Dispatcher::start(BindOutcome::Bound).expect("bind succeeded");
    assert_eq!(d.step(AcceptEvent::Accepted), AcceptAction::SpawnTask(0));
    assert_eq!(d.step(AcceptEvent::TransientError), AcceptAction::LogAndContinue);
    assert_eq!(d.state, LoopState::Running);
    assert_eq!(d.step(AcceptEvent::Accepted), AcceptAction::SpawnTask(1));
}

#[test]
fn invalid_listener_terminates_the_loop() {
    let mut d = Dispatcher::start(BindOutcome::Bound).expect("bind succeeded");
    assert_eq!(d.step(AcceptEvent::ListenerInvalid), AcceptAction::Stop);
    assert_eq!(d.state, LoopState::Terminated);
}
