//! The lifecycle record of the supervised backend and the events that change it.
//!
//! The record is a small state machine. Every change goes through
//! [`BackendHandle::apply`], whose contract is the pair of spec functions
//! [`HandleView::next`] and [`HandleView::reaction`]. The caller keeps the
//! handle behind one lock, applies an event while holding it, and carries out
//! the returned reaction.

use vstd::prelude::*;

verus! {

/// Where the supervised backend stands in its life.
#[derive(Clone, Copy, Debug, PartialEq, Eq, Structural)]
pub enum LifecycleState {
    /// No backend is known to run.
    Stopped,
    /// A child was launched and has not answered a health probe yet.
    Starting,
    /// A backend answers on the endpoint: the launched child, or an instance
    /// that was found already running and adopted.
    Ready,
    /// The recorded child was asked to terminate and has not been seen to exit.
    StoppingRequested,
}

/// What the supervisor tells the surrounding shell.
#[derive(Clone, Copy, Debug, PartialEq, Eq, Structural)]
pub enum Notification {
    /// The backend became ready. The shell also brings the main window forward.
    BackendReady,
    /// The backend is gone.
    BackendStopped,
}

impl Notification {
    /// The name under which the shell hears of the notification.
    pub open spec fn spec_event_name(self) -> Seq<char> {
        match self {
            Notification::BackendReady => "backend-ready"@,
            Notification::BackendStopped => "backend-stopped"@,
        }
    }

    /// The name under which the shell hears of the notification. It carries
    /// no payload.
    pub fn event_name(self) -> (name: &'static str)
        ensures
            name@ == self.spec_event_name(),
    {
        match self {
            Notification::BackendReady => "backend-ready",
            Notification::BackendStopped => "backend-stopped",
        }
    }

    /// Whether the shell brings the main window forward on the notification:
    /// it does when the backend became ready.
    pub fn presents_window(self) -> (presents: bool)
        ensures
            presents == (self is BackendReady),
    {
        match self {
            Notification::BackendReady => true,
            Notification::BackendStopped => false,
        }
    }
}

/// What changes a handle.
#[derive(Clone, Copy, Debug, PartialEq, Eq, Structural)]
pub enum HandleEvent {
    /// A child was launched under this process id.
    Launched(u32),
    /// Launching the child failed.
    LaunchFailed,
    /// An instance that was not launched through this handle answers on the
    /// endpoint or holds the port.
    ExternalInstanceFound,
    /// A health probe of the readiness poller succeeded.
    ProbeSucceeded,
    /// The recorded process was seen to have exited: its standard output
    /// closed, or a non-blocking wait reported the exit.
    ExitObserved,
    /// The backend is to be shut down.
    ShutdownRequested,
}

/// What the caller has to do after an event was applied.
#[derive(Clone, Copy, Debug, PartialEq, Eq, Structural)]
pub enum Reaction {
    /// Nothing.
    Nothing,
    /// Send the notification to the shell, while still holding the lock.
    Announce(Notification),
    /// Send the graceful termination signal to this process.
    Terminate(u32),
}

/// The mathematical content of a [`BackendHandle`].
pub struct HandleView {
    /// The process id of the running backend, where one is recorded.
    pub process_id: Option<u32>,
    /// The lifecycle state.
    pub state: LifecycleState,
}

impl HandleView {
    /// The handle of a supervisor that has not started anything.
    pub open spec fn initial() -> HandleView {
        HandleView { process_id: None, state: LifecycleState::Stopped }
    }

    /// A process is recorded in every state but `Stopped`, with one exception:
    /// a `Ready` handle without a process stands for an adopted instance.
    pub open spec fn wf(self) -> bool {
        &&& self.state is Stopped ==> self.process_id is None
        &&& self.state is Starting ==> self.process_id is Some
        &&& self.state is StoppingRequested ==> self.process_id is Some
    }

    /// The readiness that a status query reports.
    pub open spec fn ready(self) -> bool {
        self.state is Ready
    }

    /// The handle after `event`.
    pub open spec fn next(self, event: HandleEvent) -> HandleView {
        match event {
            HandleEvent::Launched(pid) => HandleView {
                process_id: Some(pid),
                state: LifecycleState::Starting,
            },
            HandleEvent::LaunchFailed => HandleView::initial(),
            HandleEvent::ExternalInstanceFound => HandleView {
                process_id: self.process_id,
                state: LifecycleState::Ready,
            },
            HandleEvent::ProbeSucceeded => if self.state is Starting {
                HandleView { process_id: self.process_id, state: LifecycleState::Ready }
            } else {
                self
            },
            HandleEvent::ExitObserved => HandleView::initial(),
            HandleEvent::ShutdownRequested => if self.process_id is Some {
                HandleView {
                    process_id: self.process_id,
                    state: LifecycleState::StoppingRequested,
                }
            } else {
                HandleView::initial()
            },
        }
    }

    /// What the caller owes the outside world after `event`.
    pub open spec fn reaction(self, event: HandleEvent) -> Reaction {
        match event {
            HandleEvent::Launched(_) => Reaction::Nothing,
            HandleEvent::LaunchFailed => Reaction::Nothing,
            HandleEvent::ExternalInstanceFound => Reaction::Announce(Notification::BackendReady),
            HandleEvent::ProbeSucceeded => if self.state is Starting {
                Reaction::Announce(Notification::BackendReady)
            } else {
                Reaction::Nothing
            },
            HandleEvent::ExitObserved => if self.state is Stopped {
                Reaction::Nothing
            } else {
                Reaction::Announce(Notification::BackendStopped)
            },
            HandleEvent::ShutdownRequested => match self.process_id {
                Some(pid) => Reaction::Terminate(pid),
                None => Reaction::Nothing,
            },
        }
    }
}

/// The supervised process, if any, and its lifecycle state.
///
/// The fields are private and every value is well formed in the sense of
/// [`HandleView::wf`].
#[derive(Debug)]
pub struct BackendHandle {
    process_id: Option<u32>,
    state: LifecycleState,
}

impl View for BackendHandle {
    type V = HandleView;

    closed spec fn view(&self) -> HandleView {
        HandleView { process_id: self.process_id, state: self.state }
    }
}

impl BackendHandle {
    #[verifier::type_invariant]
    pub(crate) open spec fn well_formed(self) -> bool {
        self@.wf()
    }

    /// A handle in state `Stopped` with no process recorded.
    pub fn new() -> (handle: BackendHandle)
        ensures
            handle@ == HandleView::initial(),
    {
        BackendHandle { process_id: None, state: LifecycleState::Stopped }
    }

    /// The lifecycle state.
    pub fn state(&self) -> (state: LifecycleState)
        ensures
            state == self@.state,
            self@.wf(),
    {
        proof {
            use_type_invariant(self);
        }
        self.state
    }

    /// The recorded process, if any.
    pub fn process_id(&self) -> (pid: Option<u32>)
        ensures
            pid == self@.process_id,
            self@.wf(),
    {
        proof {
            use_type_invariant(self);
        }
        self.process_id
    }

    /// The status query: whether the backend is ready at this moment.
    pub fn is_ready(&self) -> (ready: bool)
        ensures
            ready == self@.ready(),
            self@.wf(),
    {
        proof {
            use_type_invariant(self);
        }
        match self.state {
            LifecycleState::Ready => true,
            _ => false,
        }
    }

    /// Applies `event` and returns what the caller has to do about it.
    pub fn apply(&mut self, event: HandleEvent) -> (reaction: Reaction)
        ensures
            final(self)@ == old(self)@.next(event),
            reaction == old(self)@.reaction(event),
            old(self)@.wf(),
            final(self)@.wf(),
    {
        proof {
            use_type_invariant(&*self);
        }
        let pid = self.process_id;
        let state = self.state;
        match event {
            HandleEvent::Launched(new_pid) => {
                *self = BackendHandle { process_id: Some(new_pid), state: LifecycleState::Starting };
                Reaction::Nothing
            },
            HandleEvent::LaunchFailed => {
                *self = BackendHandle::new();
                Reaction::Nothing
            },
            HandleEvent::ExternalInstanceFound => {
                *self = BackendHandle { process_id: pid, state: LifecycleState::Ready };
                Reaction::Announce(Notification::BackendReady)
            },
            HandleEvent::ProbeSucceeded => match state {
                LifecycleState::Starting => {
                    *self = BackendHandle { process_id: pid, state: LifecycleState::Ready };
                    Reaction::Announce(Notification::BackendReady)
                },
                _ => Reaction::Nothing,
            },
            HandleEvent::ExitObserved => {
                *self = BackendHandle::new();
                match state {
                    LifecycleState::Stopped => Reaction::Nothing,
                    _ => Reaction::Announce(Notification::BackendStopped),
                }
            },
            HandleEvent::ShutdownRequested => match pid {
                Some(p) => {
                    *self = BackendHandle {
                        process_id: pid,
                        state: LifecycleState::StoppingRequested,
                    };
                    Reaction::Terminate(p)
                },
                None => {
                    *self = BackendHandle::new();
                    Reaction::Nothing
                },
            },
        }
    }
}

/// The handle of a supervisor that began with [`HandleView::initial`] and has
/// seen `events`, in order.
pub open spec fn spec_after(events: Seq<HandleEvent>) -> HandleView
    decreases events.len(),
{
    if events.len() == 0 {
        HandleView::initial()
    } else {
        spec_after(events.drop_last()).next(events.last())
    }
}

/// Whatever has happened, the handle is well formed.
pub proof fn law_every_handle_is_well_formed(events: Seq<HandleEvent>)
    ensures
        spec_after(events).wf(),
    decreases events.len(),
{
    if events.len() > 0 {
        law_every_handle_is_well_formed(events.drop_last());
    }
}

/// As long as no instance was adopted, a process is recorded exactly when
/// the handle is not `Stopped`. So a handle is `Ready` without a process only
/// through an adoption.
pub proof fn law_record_follows_state_without_adoption(events: Seq<HandleEvent>)
    requires
        forall|i: int| 0 <= i < events.len() ==> !(#[trigger] events[i] is ExternalInstanceFound),
    ensures
        spec_after(events).process_id is Some <==> !(spec_after(events).state is Stopped),
    decreases events.len(),
{
    if events.len() > 0 {
        let before = events.drop_last();
        assert forall|i: int| 0 <= i < before.len() implies !(#[trigger] before[i]
            is ExternalInstanceFound) by {
            assert(before[i] == events[i]);
        }
        law_record_follows_state_without_adoption(before);
        assert(!(events[events.len() - 1] is ExternalInstanceFound));
    }
}

/// Every event takes a well-formed handle to a well-formed handle.
pub proof fn law_events_keep_handle_well_formed(h: HandleView, event: HandleEvent)
    requires
        h.wf(),
    ensures
        h.next(event).wf(),
{
}

/// Readiness and its notification come together. Whatever the event: where
/// `BackendReady` is announced the handle is `Ready` afterwards, and where a
/// handle that was not `Ready` becomes `Ready`, `BackendReady` is announced. So
/// a `Starting` handle never turns `Ready` in silence.
pub proof fn law_ready_is_announced(h: HandleView, event: HandleEvent)
    requires
        h.wf(),
    ensures
        h.reaction(event) == Reaction::Announce(Notification::BackendReady) ==> h.next(
            event,
        ).ready(),
        !h.ready() && h.next(event).ready() ==> h.reaction(event) == Reaction::Announce(
            Notification::BackendReady,
        ),
{
}

/// A successful probe turns `Starting` into `Ready` and announces it once: a
/// second success changes nothing and announces nothing.
pub proof fn law_ready_is_announced_once(h: HandleView)
    requires
        h.wf(),
    ensures
        h.state is Starting ==> h.next(HandleEvent::ProbeSucceeded).state is Ready && h.reaction(
            HandleEvent::ProbeSucceeded,
        ) == Reaction::Announce(Notification::BackendReady),
        h.next(HandleEvent::ProbeSucceeded).next(HandleEvent::ProbeSucceeded) == h.next(
            HandleEvent::ProbeSucceeded,
        ),
        h.next(HandleEvent::ProbeSucceeded).reaction(HandleEvent::ProbeSucceeded)
            == Reaction::Nothing,
{
}

/// A successful probe makes nothing ready where no process is recorded: the
/// step from `Starting` to `Ready` needs a live record.
pub proof fn law_probe_needs_recorded_process(h: HandleView)
    requires
        h.wf(),
        h.process_id is None,
    ensures
        h.next(HandleEvent::ProbeSucceeded) == h,
        h.reaction(HandleEvent::ProbeSucceeded) == Reaction::Nothing,
{
}

/// An observed exit leaves the handle `Stopped` with no process recorded, and
/// `BackendStopped` is announced exactly where the handle was not `Stopped`
/// before: two observers of one exit announce it once.
pub proof fn law_exit_is_announced_once(h: HandleView)
    requires
        h.wf(),
    ensures
        h.next(HandleEvent::ExitObserved) == HandleView::initial(),
        !h.next(HandleEvent::ExitObserved).ready(),
        !(h.state is Stopped) <==> h.reaction(HandleEvent::ExitObserved) == Reaction::Announce(
            Notification::BackendStopped,
        ),
        h.next(HandleEvent::ExitObserved).reaction(HandleEvent::ExitObserved)
            == Reaction::Nothing,
{
}

/// `BackendStopped` is announced only by the event that stops the handle.
pub proof fn law_stopped_is_announced_with_the_state(h: HandleView, event: HandleEvent)
    requires
        h.wf(),
    ensures
        h.reaction(event) == Reaction::Announce(Notification::BackendStopped) ==> !(h.state
            is Stopped) && h.next(event).state is Stopped,
{
}

/// A shutdown request clears readiness and keeps the record of the process,
/// which is the one that is signalled.
pub proof fn law_shutdown_keeps_the_record(h: HandleView)
    requires
        h.wf(),
    ensures
        !h.next(HandleEvent::ShutdownRequested).ready(),
        h.next(HandleEvent::ShutdownRequested).process_id == h.process_id,
        forall|pid: u32|
            h.reaction(HandleEvent::ShutdownRequested) == Reaction::Terminate(pid)
                <==> h.process_id == Some(pid),
        h.process_id is None ==> h.next(HandleEvent::ShutdownRequested) == HandleView::initial(),
{
}

} // verus!
