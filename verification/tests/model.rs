//! The lifecycle and remote-pair decision rules on concrete values.

use async_executors::remote_pair::remote_poll_action;
use async_executors::remote_pair::ChannelMsg;
use async_executors::remote_pair::ChannelRead;
use async_executors::remote_pair::RemoteAction;
use async_executors::spawn::SpawnError;
use async_executors::task_state::detach_transition;
use async_executors::task_state::drop_transition;
use async_executors::task_state::poll_transition;
use async_executors::task_state::FaultKind;
use async_executors::task_state::LifeState;
use async_executors::task_state::PollEvent;
use async_executors::task_state::PollStep;
use async_executors::remote_pair::handle_read_event;

#[test]
fn spawn_error_reports_shutdown() {
    assert!(SpawnError::new().is_shutdown());
    assert!(SpawnError::shutdown().is_shutdown());
}

#[test]
fn poll_returns_output_exactly_once() {
    let (s1, step1) = poll_transition(LifeState::Running, PollEvent::Output(42));
    assert_eq!(s1, LifeState::Completed);
    assert!(matches!(step1, PollStep::Return(42)));

    let (s2, step2) = poll_transition(s1, PollEvent::<i32>::Pending);
    assert_eq!(s2, LifeState::Completed);
    assert!(matches!(step2, PollStep::Misuse));
}

#[test]
fn poll_pending_keeps_state() {
    let (s, step) = poll_transition(LifeState::Running, PollEvent::<u8>::Pending);
    assert_eq!(s, LifeState::Running);
    assert!(matches!(step, PollStep::NotReady));
}

#[test]
fn poll_raises_faults_at_joining_side() {
    let (s, step) = poll_transition(
        LifeState::Running,
        PollEvent::<u8>::Fault(FaultKind::Panicked),
    );
    assert_eq!(s, LifeState::Completed);
    assert!(matches!(step, PollStep::Raise(FaultKind::Panicked)));
}

#[test]
fn poll_after_cancellation_is_misuse() {
    let (_, step) = poll_transition(LifeState::Cancelled, PollEvent::Output(1));
    assert!(matches!(step, PollStep::Misuse));
}

#[test]
fn detach_then_drop_requests_no_cancellation() {
    let detached = detach_transition(LifeState::Running);
    assert_eq!(detached, LifeState::Detached);
    let (after, cancels) = drop_transition(detached);
    assert_eq!(after, LifeState::Detached);
    assert!(!cancels);
}

#[test]
fn drop_while_running_requests_cancellation() {
    let (after, cancels) = drop_transition(LifeState::Running);
    assert_eq!(after, LifeState::Cancelled);
    assert!(cancels);
}

#[test]
fn remote_honours_cancellation_only_before_detach() {
    assert_eq!(
        remote_poll_action(true, false),
        RemoteAction::ResolveCancelled
    );
    assert_eq!(remote_poll_action(true, true), RemoteAction::RunInner);
    assert_eq!(remote_poll_action(false, false), RemoteAction::RunInner);
    assert_eq!(remote_poll_action(false, true), RemoteAction::RunInner);
}

#[test]
fn channel_reads_map_to_events() {
    assert!(matches!(
        handle_read_event(ChannelRead::Msg(ChannelMsg::Value(5))),
        PollEvent::Output(5)
    ));
    assert!(matches!(
        handle_read_event(ChannelRead::<u8>::Msg(ChannelMsg::Captured)),
        PollEvent::Fault(FaultKind::Panicked)
    ));
    assert!(matches!(
        handle_read_event(ChannelRead::<u8>::SenderGone),
        PollEvent::Fault(FaultKind::Lost)
    ));
    assert!(matches!(
        handle_read_event(ChannelRead::<u8>::ReadPending),
        PollEvent::Pending
    ));
}
