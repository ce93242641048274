use backend_supervisor::lifecycle::{
    BackendHandle, HandleEvent, LifecycleState, Notification, Reaction,
};
use backend_supervisor::relay::{
    relay_finish, relay_line, relay_step, RelayStep, StreamEvent, StreamKind,
};

#[test]
fn lines_are_logged_under_the_tag_of_their_stream() {
    assert_eq!(relay_line(StreamKind::Stdout, "listening on 3000"), "[backend] listening on 3000");
    assert_eq!(relay_line(StreamKind::Stderr, "warning"), "[backend:err] warning");
    assert_eq!(relay_line(StreamKind::Stdout, ""), "[backend] ");
}

#[test]
fn relay_forwards_lines_and_finishes_at_the_end() {
    match relay_step(StreamKind::Stdout, &StreamEvent::Line("hello".to_string())) {
        RelayStep::Forward(logged) => assert_eq!(logged, "[backend] hello"),
        RelayStep::Finish => panic!("a line ended the relay"),
    }
    match relay_step(StreamKind::Stderr, &StreamEvent::Line("oops".to_string())) {
        RelayStep::Forward(logged) => assert_eq!(logged, "[backend:err] oops"),
        RelayStep::Finish => panic!("a line ended the relay"),
    }
    for stream in [StreamKind::Stdout, StreamKind::Stderr] {
        assert!(matches!(relay_step(stream, &StreamEvent::Closed), RelayStep::Finish));
        assert!(matches!(relay_step(stream, &StreamEvent::Failed), RelayStep::Finish));
    }
}

#[test]
fn process_that_exits_at_once_is_reported_stopped() {
    let mut handle = BackendHandle::new();
    handle.apply(HandleEvent::Launched(321));
    let events = vec![StreamEvent::Closed];
    let mut iterations = 0;
    let mut notifications = Vec::new();
    for event in &events {
        iterations += 1;
        match relay_step(StreamKind::Stdout, event) {
            RelayStep::Forward(_) => {}
            RelayStep::Finish => {
                if let Reaction::Announce(n) = relay_finish(&mut handle, StreamKind::Stdout) {
                    notifications.push(n);
                }
                break;
            }
        }
    }
    assert_eq!(iterations, 1);
    assert_eq!(notifications, vec![Notification::BackendStopped]);
    assert!(!handle.is_ready());
    assert_eq!(handle.state(), LifecycleState::Stopped);
    assert_eq!(handle.process_id(), None);
}

#[test]
fn exit_after_some_output_is_reported_after_that_output() {
    let mut handle = BackendHandle::new();
    handle.apply(HandleEvent::Launched(321));
    handle.apply(HandleEvent::ProbeSucceeded);
    let events = vec![
        StreamEvent::Line("one".to_string()),
        StreamEvent::Line("two".to_string()),
        StreamEvent::Failed,
        StreamEvent::Line("never read".to_string()),
    ];
    let mut logged = Vec::new();
    let mut finished_at = None;
    for (i, event) in events.iter().enumerate() {
        match relay_step(StreamKind::Stdout, event) {
            RelayStep::Forward(line) => logged.push(line),
            RelayStep::Finish => {
                finished_at = Some(i);
                break;
            }
        }
    }
    assert_eq!(finished_at, Some(2));
    assert_eq!(logged, vec!["[backend] one".to_string(), "[backend] two".to_string()]);
    assert_eq!(
        relay_finish(&mut handle, StreamKind::Stdout),
        Reaction::Announce(Notification::BackendStopped)
    );
    assert!(!handle.is_ready());
    assert_eq!(relay_finish(&mut handle, StreamKind::Stdout), Reaction::Nothing);
}

#[test]
fn end_of_standard_error_changes_nothing() {
    let mut handle = BackendHandle::new();
    handle.apply(HandleEvent::Launched(321));
    handle.apply(HandleEvent::ProbeSucceeded);
    assert_eq!(relay_finish(&mut handle, StreamKind::Stderr), Reaction::Nothing);
    assert_eq!(handle.state(), LifecycleState::Ready);
    assert_eq!(handle.process_id(), Some(321));
}
