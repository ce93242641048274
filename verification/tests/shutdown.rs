use backend_supervisor::lifecycle::{
    BackendHandle, HandleEvent, LifecycleState, Notification, Reaction,
};
use backend_supervisor::shutdown::{
    exit_wait_step, workload_names, workload_query, workload_stop, ExitWait,
    EXIT_POLL_INTERVAL_MS, RESTART_TIMEOUT_MS,
};
use backend_supervisor::spawn::ProcessPoll;

fn running_handle(pid: u32) -> BackendHandle {
    let mut handle = BackendHandle::new();
    handle.apply(HandleEvent::Launched(pid));
    handle.apply(HandleEvent::ProbeSucceeded);
    handle
}

#[test]
fn shutdown_constants() {
    assert_eq!(EXIT_POLL_INTERVAL_MS, 100);
    assert_eq!(RESTART_TIMEOUT_MS, 5000);
}

#[test]
fn stubborn_process_is_killed_at_the_timeout() {
    let timeout_ms = 200;
    let mut handle = running_handle(55);
    assert_eq!(handle.apply(HandleEvent::ShutdownRequested), Reaction::Terminate(55));
    let mut elapsed_ms = 0;
    let mut polls = 0;
    let decision = loop {
        polls += 1;
        match exit_wait_step(&mut handle, ProcessPoll::Running, elapsed_ms, timeout_ms) {
            ExitWait::PollAgain(pause) => {
                assert_eq!(pause, 100);
                assert!(elapsed_ms < timeout_ms);
                elapsed_ms += pause;
            }
            other => break other,
        }
        assert!(polls < 10);
    };
    assert_eq!(decision, ExitWait::ForceKill(55));
    assert_eq!(polls, 3);
    assert_eq!(elapsed_ms, 200);
    assert!(elapsed_ms < timeout_ms + EXIT_POLL_INTERVAL_MS);
    assert!(!handle.is_ready());
    assert_eq!(handle.state(), LifecycleState::StoppingRequested);
    assert_ne!(handle.state(), LifecycleState::Starting);
    assert_ne!(handle.state(), LifecycleState::Ready);
}

#[test]
fn wait_with_zero_timeout_kills_at_once() {
    let mut handle = running_handle(8);
    handle.apply(HandleEvent::ShutdownRequested);
    assert_eq!(exit_wait_step(&mut handle, ProcessPoll::Running, 0, 0), ExitWait::ForceKill(8));
}

#[test]
fn wait_sleeps_up_to_the_last_millisecond() {
    let mut handle = running_handle(8);
    handle.apply(HandleEvent::ShutdownRequested);
    assert_eq!(
        exit_wait_step(&mut handle, ProcessPoll::Running, 199, 200),
        ExitWait::PollAgain(100)
    );
    assert_eq!(exit_wait_step(&mut handle, ProcessPoll::Running, 200, 200), ExitWait::ForceKill(8));
    assert_eq!(
        exit_wait_step(&mut handle, ProcessPoll::Running, u64::MAX, 200),
        ExitWait::ForceKill(8)
    );
}

#[test]
fn observed_exit_ends_the_wait_and_clears_the_record() {
    for poll in [ProcessPoll::Exited, ProcessPoll::Failed] {
        let mut handle = running_handle(8);
        handle.apply(HandleEvent::ShutdownRequested);
        assert_eq!(
            exit_wait_step(&mut handle, poll, 50, 5000),
            ExitWait::Finished(Reaction::Announce(Notification::BackendStopped))
        );
        assert_eq!(handle.state(), LifecycleState::Stopped);
        assert_eq!(handle.process_id(), None);
        assert_eq!(
            exit_wait_step(&mut handle, poll, 60, 5000),
            ExitWait::Finished(Reaction::Nothing)
        );
    }
}

#[test]
fn wait_without_process_ends_at_once() {
    let mut handle = BackendHandle::new();
    for poll in [ProcessPoll::Running, ProcessPoll::Exited, ProcessPoll::Failed] {
        assert_eq!(exit_wait_step(&mut handle, poll, 0, 5000), ExitWait::Finished(Reaction::Nothing));
        assert_eq!(handle.state(), LifecycleState::Stopped);
    }
}

#[test]
fn exit_seen_by_the_relay_first_ends_the_wait_in_silence() {
    let mut handle = running_handle(8);
    handle.apply(HandleEvent::ShutdownRequested);
    assert_eq!(
        handle.apply(HandleEvent::ExitObserved),
        Reaction::Announce(Notification::BackendStopped)
    );
    assert_eq!(
        exit_wait_step(&mut handle, ProcessPoll::Exited, 100, 5000),
        ExitWait::Finished(Reaction::Nothing)
    );
}

#[test]
fn workload_query_filters_by_prefix() {
    assert_eq!(
        workload_query(),
        vec!["ps", "--filter", "name=nanoclaw-", "--format", "{{.Names}}"]
    );
}

#[test]
fn workload_names_are_the_lines_that_are_not_empty() {
    assert_eq!(
        workload_names("nanoclaw-a\nnanoclaw-b\n"),
        vec!["nanoclaw-a".to_string(), "nanoclaw-b".to_string()]
    );
    assert_eq!(workload_names(""), Vec::<String>::new());
    assert_eq!(workload_names("\n\n"), Vec::<String>::new());
    assert_eq!(
        workload_names("one\r\n\r\n two \nlast"),
        vec!["one".to_string(), " two ".to_string(), "last".to_string()]
    );
    let listing = "a\n\nb\r\n \nc\r";
    let expected: Vec<String> =
        listing.lines().filter(|l| !l.is_empty()).map(|l| l.to_string()).collect();
    assert_eq!(workload_names(listing), expected);
}

#[test]
fn workload_stop_names_the_workload() {
    assert_eq!(workload_stop("nanoclaw-main-1"), vec!["stop", "nanoclaw-main-1"]);
}
