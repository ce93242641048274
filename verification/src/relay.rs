//! The output relay: what becomes of the child's output, line by line.
//!
//! The caller reads each of the child's two streams line by line on a task of
//! its own and hands every event to [`relay_step`]. A line is forwarded to the
//! log under the stream's tag. The end of a stream, or a failed read, ends its
//! relay; the caller then calls [`relay_finish`], which takes the end of the
//! standard output for the exit of the process. The backend holds its standard
//! output open for its whole life, so this is how an exit that nobody asked for
//! is noticed.

use vstd::prelude::*;
use crate::lifecycle::{BackendHandle, HandleEvent, HandleView, Notification, Reaction};

verus! {

/// One of the child's two output streams.
#[derive(Clone, Copy, Debug, PartialEq, Eq, Structural)]
pub enum StreamKind {
    /// The standard output.
    Stdout,
    /// The standard error.
    Stderr,
}

/// What reading a stream gave.
#[derive(Debug)]
pub enum StreamEvent {
    /// A line, without its line ending.
    Line(String),
    /// The stream ended.
    Closed,
    /// A read failed.
    Failed,
}

/// What the relay does about an event.
#[derive(Debug)]
pub enum RelayStep {
    /// Write this line to the log and read on.
    Forward(String),
    /// Stop reading.
    Finish,
}

/// The tag under which the lines of `stream` are logged.
pub open spec fn spec_relay_tag(stream: StreamKind) -> Seq<char> {
    match stream {
        StreamKind::Stdout => "[backend]"@,
        StreamKind::Stderr => "[backend:err]"@,
    }
}

/// A line of `stream` as it is logged: the tag, a space, the line.
pub open spec fn spec_relay_line(stream: StreamKind, line: Seq<char>) -> Seq<char> {
    spec_relay_tag(stream) + " "@ + line
}

/// The handle after the relay of `stream` ended.
pub open spec fn spec_relay_finish_handle(h: HandleView, stream: StreamKind) -> HandleView {
    match stream {
        StreamKind::Stdout => h.next(HandleEvent::ExitObserved),
        StreamKind::Stderr => h,
    }
}

/// What the caller owes the outside world after the relay of `stream` ended.
pub open spec fn spec_relay_finish_reaction(h: HandleView, stream: StreamKind) -> Reaction {
    match stream {
        StreamKind::Stdout => h.reaction(HandleEvent::ExitObserved),
        StreamKind::Stderr => Reaction::Nothing,
    }
}

/// A line of `stream` as it is logged.
pub fn relay_line(stream: StreamKind, line: &str) -> (logged: String)
    ensures
        logged@ == spec_relay_line(stream, line@),
{
    let mut logged = match stream {
        StreamKind::Stdout => String::from_str("[backend]"),
        StreamKind::Stderr => String::from_str("[backend:err]"),
    };
    logged.append(" ");
    logged.append(line);
    logged
}

/// One step of a relay: a line is forwarded under the stream's tag; the end
/// of the stream and a failed read finish the relay.
pub fn relay_step(stream: StreamKind, event: &StreamEvent) -> (step: RelayStep)
    ensures
        match *event {
            StreamEvent::Line(line) => step matches RelayStep::Forward(logged) && logged@
                == spec_relay_line(stream, line@),
            StreamEvent::Closed => step is Finish,
            StreamEvent::Failed => step is Finish,
        },
{
    match event {
        StreamEvent::Line(line) => RelayStep::Forward(relay_line(stream, line.as_str())),
        StreamEvent::Closed => RelayStep::Finish,
        StreamEvent::Failed => RelayStep::Finish,
    }
}

/// Called when the relay of `stream` has finished. The end of the standard
/// output is the observed exit of the process; the end of the standard error
/// changes nothing.
pub fn relay_finish(handle: &mut BackendHandle, stream: StreamKind) -> (reaction: Reaction)
    ensures
        final(handle)@ == spec_relay_finish_handle(old(handle)@, stream),
        reaction == spec_relay_finish_reaction(old(handle)@, stream),
        old(handle)@.wf(),
        final(handle)@.wf(),
{
    match stream {
        StreamKind::Stdout => handle.apply(HandleEvent::ExitObserved),
        StreamKind::Stderr => {
            proof {
                use_type_invariant(&*handle);
            }
            Reaction::Nothing
        },
    }
}

/// How many events the relay of a stream takes from `events` before it has
/// finished: the lines up to the first event that is no line, and that event.
pub open spec fn spec_relay_steps(events: Seq<StreamEvent>) -> nat
    decreases events.len(),
{
    if events.len() == 0 {
        0
    } else if events[0] is Line {
        1 + spec_relay_steps(events.drop_first())
    } else {
        1
    }
}

/// The relay is bounded by its stream: where event `k` is the first that is
/// no line, the relay finishes with that event, after `k + 1` steps. The relay
/// of a process that exits without a word so finishes at its first step.
pub proof fn law_relay_finishes_at_the_end_of_the_stream(events: Seq<StreamEvent>, k: int)
    requires
        0 <= k < events.len(),
        !(events[k] is Line),
        forall|j: int| 0 <= j < k ==> #[trigger] events[j] is Line,
    ensures
        spec_relay_steps(events) == k + 1,
    decreases k,
{
    if k > 0 {
        let rest = events.drop_first();
        assert(rest[k - 1] == events[k]);
        assert forall|j: int| 0 <= j < k - 1 implies #[trigger] rest[j] is Line by {
            assert(rest[j] == events[j + 1]);
        }
        law_relay_finishes_at_the_end_of_the_stream(rest, k - 1);
    }
}

/// Exit convergence. Finishing the relay of the standard output of a handle
/// that is not `Stopped` leaves the handle `Stopped`, not ready, with no
/// process recorded, and announces `BackendStopped`. Finishing the relay of the
/// standard error changes nothing and announces nothing.
pub proof fn law_exit_convergence(h: HandleView)
    requires
        h.wf(),
        !(h.state is Stopped),
    ensures
        spec_relay_finish_handle(h, StreamKind::Stdout) == HandleView::initial(),
        !spec_relay_finish_handle(h, StreamKind::Stdout).ready(),
        spec_relay_finish_reaction(h, StreamKind::Stdout) == Reaction::Announce(
            Notification::BackendStopped,
        ),
        spec_relay_finish_handle(h, StreamKind::Stderr) == h,
        spec_relay_finish_reaction(h, StreamKind::Stderr) == Reaction::Nothing,
{
}

/// The end of the standard output is announced once: finishing the relay a
/// second time, or after the exit was seen by a poll, announces nothing.
pub proof fn law_exit_convergence_is_announced_once(h: HandleView)
    requires
        h.wf(),
    ensures
        spec_relay_finish_reaction(
            spec_relay_finish_handle(h, StreamKind::Stdout),
            StreamKind::Stdout,
        ) == Reaction::Nothing,
        spec_relay_finish_handle(h, StreamKind::Stdout).wf(),
{
}

} // verus!
