use backend_supervisor::lifecycle::{
    BackendHandle, HandleEvent, LifecycleState, Notification, Reaction,
};

#[test]
fn new_handle_is_stopped_without_process() {
    let handle = BackendHandle::new();
    assert_eq!(handle.state(), LifecycleState::Stopped);
    assert_eq!(handle.process_id(), None);
    assert!(!handle.is_ready());
}

#[test]
fn launch_records_process_and_starts() {
    let mut handle = BackendHandle::new();
    assert_eq!(handle.apply(HandleEvent::Launched(4242)), Reaction::Nothing);
    assert_eq!(handle.state(), LifecycleState::Starting);
    assert_eq!(handle.process_id(), Some(4242));
    assert!(!handle.is_ready());
}

#[test]
fn probe_success_makes_starting_handle_ready_once() {
    let mut handle = BackendHandle::new();
    handle.apply(HandleEvent::Launched(7));
    assert_eq!(
        handle.apply(HandleEvent::ProbeSucceeded),
        Reaction::Announce(Notification::BackendReady)
    );
    assert_eq!(handle.state(), LifecycleState::Ready);
    assert_eq!(handle.process_id(), Some(7));
    assert!(handle.is_ready());
    assert_eq!(handle.apply(HandleEvent::ProbeSucceeded), Reaction::Nothing);
    assert_eq!(handle.state(), LifecycleState::Ready);
    assert_eq!(handle.process_id(), Some(7));
}

#[test]
fn probe_success_without_process_changes_nothing() {
    let mut handle = BackendHandle::new();
    assert_eq!(handle.apply(HandleEvent::ProbeSucceeded), Reaction::Nothing);
    assert_eq!(handle.state(), LifecycleState::Stopped);
    assert_eq!(handle.process_id(), None);
}

#[test]
fn probe_success_after_shutdown_request_changes_nothing() {
    let mut handle = BackendHandle::new();
    handle.apply(HandleEvent::Launched(7));
    handle.apply(HandleEvent::ShutdownRequested);
    assert_eq!(handle.apply(HandleEvent::ProbeSucceeded), Reaction::Nothing);
    assert_eq!(handle.state(), LifecycleState::StoppingRequested);
    assert!(!handle.is_ready());
}

#[test]
fn adoption_is_ready_without_process_and_announced_each_time() {
    let mut handle = BackendHandle::new();
    assert_eq!(
        handle.apply(HandleEvent::ExternalInstanceFound),
        Reaction::Announce(Notification::BackendReady)
    );
    assert_eq!(handle.state(), LifecycleState::Ready);
    assert_eq!(handle.process_id(), None);
    assert!(handle.is_ready());
    assert_eq!(
        handle.apply(HandleEvent::ExternalInstanceFound),
        Reaction::Announce(Notification::BackendReady)
    );
    assert_eq!(handle.state(), LifecycleState::Ready);
}

#[test]
fn exit_clears_record_and_is_announced_once() {
    let mut handle = BackendHandle::new();
    handle.apply(HandleEvent::Launched(99));
    handle.apply(HandleEvent::ProbeSucceeded);
    assert_eq!(
        handle.apply(HandleEvent::ExitObserved),
        Reaction::Announce(Notification::BackendStopped)
    );
    assert_eq!(handle.state(), LifecycleState::Stopped);
    assert_eq!(handle.process_id(), None);
    assert!(!handle.is_ready());
    assert_eq!(handle.apply(HandleEvent::ExitObserved), Reaction::Nothing);
    assert_eq!(handle.state(), LifecycleState::Stopped);
}

#[test]
fn exit_before_readiness_goes_straight_to_stopped() {
    let mut handle = BackendHandle::new();
    handle.apply(HandleEvent::Launched(99));
    assert_eq!(
        handle.apply(HandleEvent::ExitObserved),
        Reaction::Announce(Notification::BackendStopped)
    );
    assert_eq!(handle.state(), LifecycleState::Stopped);
    assert_eq!(handle.apply(HandleEvent::ProbeSucceeded), Reaction::Nothing);
    assert!(!handle.is_ready());
}

#[test]
fn shutdown_request_names_the_process_and_keeps_the_record() {
    let mut handle = BackendHandle::new();
    handle.apply(HandleEvent::Launched(31));
    handle.apply(HandleEvent::ProbeSucceeded);
    assert_eq!(handle.apply(HandleEvent::ShutdownRequested), Reaction::Terminate(31));
    assert_eq!(handle.state(), LifecycleState::StoppingRequested);
    assert_eq!(handle.process_id(), Some(31));
    assert!(!handle.is_ready());
    assert_eq!(handle.apply(HandleEvent::ShutdownRequested), Reaction::Terminate(31));
    assert_eq!(handle.state(), LifecycleState::StoppingRequested);
}

#[test]
fn shutdown_request_without_process_stops() {
    let mut handle = BackendHandle::new();
    assert_eq!(handle.apply(HandleEvent::ShutdownRequested), Reaction::Nothing);
    assert_eq!(handle.state(), LifecycleState::Stopped);
    handle.apply(HandleEvent::ExternalInstanceFound);
    assert_eq!(handle.apply(HandleEvent::ShutdownRequested), Reaction::Nothing);
    assert_eq!(handle.state(), LifecycleState::Stopped);
    assert_eq!(handle.process_id(), None);
}

#[test]
fn failed_launch_leaves_handle_stopped() {
    let mut handle = BackendHandle::new();
    handle.apply(HandleEvent::ExternalInstanceFound);
    assert_eq!(handle.apply(HandleEvent::LaunchFailed), Reaction::Nothing);
    assert_eq!(handle.state(), LifecycleState::Stopped);
    assert_eq!(handle.process_id(), None);
}

#[test]
fn relaunch_replaces_the_recorded_process() {
    let mut handle = BackendHandle::new();
    handle.apply(HandleEvent::Launched(1));
    handle.apply(HandleEvent::ShutdownRequested);
    assert_eq!(handle.apply(HandleEvent::Launched(2)), Reaction::Nothing);
    assert_eq!(handle.state(), LifecycleState::Starting);
    assert_eq!(handle.process_id(), Some(2));
}

fn all_events() -> Vec<HandleEvent> {
    vec![
        HandleEvent::Launched(5),
        HandleEvent::LaunchFailed,
        HandleEvent::ExternalInstanceFound,
        HandleEvent::ProbeSucceeded,
        HandleEvent::ExitObserved,
        HandleEvent::ShutdownRequested,
    ]
}

fn replay(events: &[HandleEvent]) -> BackendHandle {
    let mut handle = BackendHandle::new();
    for event in events {
        handle.apply(*event);
    }
    handle
}

#[test]
fn readiness_and_notification_come_together_on_every_path() {
    let events = all_events();
    for first in &events {
        for second in &events {
            for third in &events {
                for last in &events {
                    let mut handle = replay(&[*first, *second, *third]);
                    let was_ready = handle.is_ready();
                    let reaction = handle.apply(*last);
                    if reaction == Reaction::Announce(Notification::BackendReady) {
                        assert!(handle.is_ready());
                    }
                    if !was_ready && handle.is_ready() {
                        assert_eq!(reaction, Reaction::Announce(Notification::BackendReady));
                    }
                    if reaction == Reaction::Announce(Notification::BackendStopped) {
                        assert_eq!(handle.state(), LifecycleState::Stopped);
                    }
                }
            }
        }
    }
}

#[test]
fn process_record_follows_the_state_on_every_path() {
    let events = all_events();
    for first in &events {
        for second in &events {
            for third in &events {
                for last in &events {
                    let handle = replay(&[*first, *second, *third, *last]);
                    match handle.state() {
                        LifecycleState::Stopped => assert_eq!(handle.process_id(), None),
                        LifecycleState::Starting => assert!(handle.process_id().is_some()),
                        LifecycleState::StoppingRequested => {
                            assert!(handle.process_id().is_some())
                        }
                        LifecycleState::Ready => {}
                    }
                    assert_eq!(handle.is_ready(), handle.state() == LifecycleState::Ready);
                    let path = [*first, *second, *third, *last];
                    if !path.contains(&HandleEvent::ExternalInstanceFound) {
                        assert_eq!(
                            handle.process_id().is_some(),
                            handle.state() != LifecycleState::Stopped
                        );
                    }
                }
            }
        }
    }
}

#[test]
fn notifications_have_their_event_names() {
    assert_eq!(Notification::BackendReady.event_name(), "backend-ready");
    assert_eq!(Notification::BackendStopped.event_name(), "backend-stopped");
    assert!(Notification::BackendReady.presents_window());
    assert!(!Notification::BackendStopped.presents_window());
}
