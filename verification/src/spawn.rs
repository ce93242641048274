//! The spawn protocol: what is looked at, and in which order, before a child
//! is launched.
//!
//! A spawn attempt walks through stages. At each stage the caller makes one
//! observation outside the lock (a non-blocking wait, a health probe, a look at
//! the port's listeners, a look at the entry path, the launch itself) and hands
//! the result to [`spawn_step`], which updates the handle and names the next
//! stage. The attempt ends at `SpawnStage::Finished`.

use vstd::prelude::*;
use crate::lifecycle::{
    BackendHandle,
    HandleEvent,
    HandleView,
    LifecycleState,
    Notification,
    Reaction,
};
use crate::text::{push_decimal, spec_decimal};

verus! {

/// What a non-blocking wait on the recorded process reported.
#[derive(Clone, Copy, Debug, PartialEq, Eq, Structural)]
pub enum ProcessPoll {
    /// The process has not exited.
    Running,
    /// The process has exited.
    Exited,
    /// The wait itself failed. The process is then taken to be gone.
    Failed,
}

/// Why a spawn attempt took over an instance instead of launching one.
#[derive(Clone, Copy, Debug, PartialEq, Eq, Structural)]
pub enum Adoption {
    /// The endpoint answered the health probe.
    HealthProbe,
    /// A process with the expected command line listens on the port.
    Listener,
}

/// How a spawn attempt ended.
#[derive(Clone, Copy, Debug, PartialEq, Eq, Structural)]
pub enum SpawnOutcome {
    /// The recorded process is alive and starting or ready: nothing was done.
    AlreadyRunning,
    /// A running instance was adopted as ready; no child was launched.
    Adopted(Adoption),
    /// The entry path does not exist: the backend was not built.
    NotBuilt,
    /// A child was launched. The caller now relays its output and polls for
    /// readiness.
    Started,
    /// Launching the child failed.
    LaunchFailed,
}

/// The observation that a spawn attempt waits for.
#[derive(Clone, Copy, Debug, PartialEq, Eq, Structural)]
pub enum SpawnStage {
    /// Wait on the recorded process without blocking.
    PollProcess,
    /// Probe the endpoint's health.
    ProbeHealth,
    /// Look for a matching listener on the port.
    InspectListeners,
    /// Look whether the entry path exists.
    CheckEntry,
    /// Launch the child.
    Launch,
    /// The attempt is over.
    Finished(SpawnOutcome),
}

/// An observation made for a spawn attempt.
#[derive(Clone, Copy, Debug, PartialEq, Eq, Structural)]
pub enum SpawnEvent {
    /// The result of the non-blocking wait.
    ProcessPolled(ProcessPoll),
    /// Whether the health probe found the endpoint reachable.
    HealthProbed(bool),
    /// Whether a matching listener holds the port.
    ListenersInspected(bool),
    /// Whether the entry path exists.
    EntryChecked(bool),
    /// The child runs under this process id.
    Launched(u32),
    /// The child could not be launched.
    LaunchFailed,
}

/// The result of one step of a spawn attempt.
#[derive(Clone, Copy, Debug, PartialEq, Eq, Structural)]
pub struct SpawnStep {
    /// The stage that follows.
    pub next: SpawnStage,
    /// What the caller has to do before it goes on.
    pub reaction: Reaction,
}

/// The stage at which an attempt on handle `h` begins: with a recorded
/// process its liveness is looked at first.
pub open spec fn spec_spawn_entry(h: HandleView) -> SpawnStage {
    if h.process_id is Some {
        SpawnStage::PollProcess
    } else {
        SpawnStage::ProbeHealth
    }
}

/// The event that a step applies to the handle, if it applies any.
pub open spec fn spec_spawn_effect(h: HandleView, stage: SpawnStage, event: SpawnEvent) -> Option<
    HandleEvent,
> {
    match (stage, event) {
        (SpawnStage::PollProcess, SpawnEvent::ProcessPolled(poll)) => if h.process_id is Some
            && !(poll is Running) {
            Some(HandleEvent::ExitObserved)
        } else {
            None
        },
        (SpawnStage::ProbeHealth, SpawnEvent::HealthProbed(true)) => Some(
            HandleEvent::ExternalInstanceFound,
        ),
        (SpawnStage::InspectListeners, SpawnEvent::ListenersInspected(true)) => Some(
            HandleEvent::ExternalInstanceFound,
        ),
        (SpawnStage::Launch, SpawnEvent::Launched(pid)) => Some(HandleEvent::Launched(pid)),
        (SpawnStage::Launch, SpawnEvent::LaunchFailed) => Some(HandleEvent::LaunchFailed),
        _ => None,
    }
}

/// The stage that follows `stage` once `event` was observed on handle `h`.
/// An event that does not answer the stage changes nothing.
pub open spec fn spec_spawn_stage(h: HandleView, stage: SpawnStage, event: SpawnEvent) -> SpawnStage {
    match (stage, event) {
        (SpawnStage::PollProcess, SpawnEvent::ProcessPolled(poll)) => if h.process_id is Some
            && poll is Running && (h.state is Starting || h.state is Ready) {
            SpawnStage::Finished(SpawnOutcome::AlreadyRunning)
        } else {
            SpawnStage::ProbeHealth
        },
        (SpawnStage::ProbeHealth, SpawnEvent::HealthProbed(reachable)) => if reachable {
            SpawnStage::Finished(SpawnOutcome::Adopted(Adoption::HealthProbe))
        } else {
            SpawnStage::InspectListeners
        },
        (SpawnStage::InspectListeners, SpawnEvent::ListenersInspected(found)) => if found {
            SpawnStage::Finished(SpawnOutcome::Adopted(Adoption::Listener))
        } else {
            SpawnStage::CheckEntry
        },
        (SpawnStage::CheckEntry, SpawnEvent::EntryChecked(exists)) => if exists {
            SpawnStage::Launch
        } else {
            SpawnStage::Finished(SpawnOutcome::NotBuilt)
        },
        (SpawnStage::Launch, SpawnEvent::Launched(_)) => SpawnStage::Finished(
            SpawnOutcome::Started,
        ),
        (SpawnStage::Launch, SpawnEvent::LaunchFailed) => SpawnStage::Finished(
            SpawnOutcome::LaunchFailed,
        ),
        _ => stage,
    }
}

/// The handle after a step.
pub open spec fn spec_spawn_handle(h: HandleView, stage: SpawnStage, event: SpawnEvent) -> HandleView {
    match spec_spawn_effect(h, stage, event) {
        Some(e) => h.next(e),
        None => h,
    }
}

/// What the caller owes the outside world after a step.
pub open spec fn spec_spawn_reaction(h: HandleView, stage: SpawnStage, event: SpawnEvent) -> Reaction {
    match spec_spawn_effect(h, stage, event) {
        Some(e) => h.reaction(e),
        None => Reaction::Nothing,
    }
}

/// The stage at which a spawn attempt begins.
pub fn spawn_entry(handle: &BackendHandle) -> (stage: SpawnStage)
    ensures
        stage == spec_spawn_entry(handle@),
{
    match handle.process_id() {
        Some(_) => SpawnStage::PollProcess,
        None => SpawnStage::ProbeHealth,
    }
}

/// Takes one step of a spawn attempt: updates the handle by what was observed
/// and names the stage that follows.
pub fn spawn_step(handle: &mut BackendHandle, stage: SpawnStage, event: SpawnEvent) -> (step:
    SpawnStep)
    ensures
        final(handle)@ == spec_spawn_handle(old(handle)@, stage, event),
        step.next == spec_spawn_stage(old(handle)@, stage, event),
        step.reaction == spec_spawn_reaction(old(handle)@, stage, event),
        old(handle)@.wf(),
        final(handle)@.wf(),
{
    let pid = handle.process_id();
    let state = handle.state();
    match (stage, event) {
        (SpawnStage::PollProcess, SpawnEvent::ProcessPolled(poll)) => {
            match (pid, poll) {
                (Some(_), ProcessPoll::Running) => {
                    let next = match state {
                        LifecycleState::Starting
                        | LifecycleState::Ready => SpawnStage::Finished(
                            SpawnOutcome::AlreadyRunning,
                        ),
                        _ => SpawnStage::ProbeHealth,
                    };
                    SpawnStep { next, reaction: Reaction::Nothing }
                },
                (Some(_), _) => {
                    let reaction = handle.apply(HandleEvent::ExitObserved);
                    SpawnStep { next: SpawnStage::ProbeHealth, reaction }
                },
                (None, _) => SpawnStep { next: SpawnStage::ProbeHealth, reaction: Reaction::Nothing },
            }
        },
        (SpawnStage::ProbeHealth, SpawnEvent::HealthProbed(reachable)) => {
            if reachable {
                let reaction = handle.apply(HandleEvent::ExternalInstanceFound);
                SpawnStep {
                    next: SpawnStage::Finished(SpawnOutcome::Adopted(Adoption::HealthProbe)),
                    reaction,
                }
            } else {
                SpawnStep { next: SpawnStage::InspectListeners, reaction: Reaction::Nothing }
            }
        },
        (SpawnStage::InspectListeners, SpawnEvent::ListenersInspected(found)) => {
            if found {
                let reaction = handle.apply(HandleEvent::ExternalInstanceFound);
                SpawnStep {
                    next: SpawnStage::Finished(SpawnOutcome::Adopted(Adoption::Listener)),
                    reaction,
                }
            } else {
                SpawnStep { next: SpawnStage::CheckEntry, reaction: Reaction::Nothing }
            }
        },
        (SpawnStage::CheckEntry, SpawnEvent::EntryChecked(exists)) => {
            if exists {
                SpawnStep { next: SpawnStage::Launch, reaction: Reaction::Nothing }
            } else {
                SpawnStep {
                    next: SpawnStage::Finished(SpawnOutcome::NotBuilt),
                    reaction: Reaction::Nothing,
                }
            }
        },
        (SpawnStage::Launch, SpawnEvent::Launched(new_pid)) => {
            let reaction = handle.apply(HandleEvent::Launched(new_pid));
            SpawnStep { next: SpawnStage::Finished(SpawnOutcome::Started), reaction }
        },
        (SpawnStage::Launch, SpawnEvent::LaunchFailed) => {
            let reaction = handle.apply(HandleEvent::LaunchFailed);
            SpawnStep { next: SpawnStage::Finished(SpawnOutcome::LaunchFailed), reaction }
        },
        _ => SpawnStep { next: stage, reaction: Reaction::Nothing },
    }
}

/// What is written to the log when an attempt ends, if anything is: that an
/// instance was adopted, and how it was found, or that the backend is not
/// built.
pub open spec fn spec_outcome_message(
    outcome: SpawnOutcome,
    host: Seq<char>,
    port: u16,
    entry_path: Seq<char>,
) -> Option<Seq<char>> {
    match outcome {
        SpawnOutcome::Adopted(Adoption::HealthProbe) => Some(
            "Backend already reachable at "@ + host + ":"@ + spec_decimal(port as nat)
                + "; skipping local spawn"@,
        ),
        SpawnOutcome::Adopted(Adoption::Listener) => Some(
            "Backend already listening at "@ + host + ":"@ + spec_decimal(port as nat)
                + "; skipping local spawn"@,
        ),
        SpawnOutcome::NotBuilt => Some(
            "Backend not built: "@ + entry_path
                + " not found. Run 'npm run build' in project root first."@,
        ),
        _ => None,
    }
}

/// The line for the log about how an attempt ended, if there is one.
pub fn outcome_message(outcome: SpawnOutcome, host: &str, port: u16, entry_path: &str) -> (message:
    Option<String>)
    ensures
        match spec_outcome_message(outcome, host@, port, entry_path@) {
            Some(text) => message matches Some(line) && line@ == text,
            None => message is None,
        },
{
    match outcome {
        SpawnOutcome::Adopted(how) => {
            let mut line = match how {
                Adoption::HealthProbe => String::from_str("Backend already reachable at "),
                Adoption::Listener => String::from_str("Backend already listening at "),
            };
            line.append(host);
            line.append(":");
            push_decimal(&mut line, port as u64);
            line.append("; skipping local spawn");
            Some(line)
        },
        SpawnOutcome::NotBuilt => {
            let mut line = String::from_str("Backend not built: ");
            line.append(entry_path);
            line.append(" not found. Run 'npm run build' in project root first.");
            Some(line)
        },
        _ => None,
    }
}

/// The line for the log about a launch that failed for `reason`.
pub fn launch_failure_message(reason: &str) -> (line: String)
    ensures
        line@ == "Failed to spawn backend: "@ + reason@,
{
    let mut line = String::from_str("Failed to spawn backend: ");
    line.append(reason);
    line
}

/// What the outside world would answer to each observation of one attempt.
pub struct SpawnAnswers {
    /// The result of a non-blocking wait on the recorded process.
    pub poll: ProcessPoll,
    /// Whether the endpoint answers the health probe.
    pub reachable: bool,
    /// Whether a matching listener holds the port.
    pub listener: bool,
    /// Whether the entry path exists.
    pub entry_exists: bool,
    /// The process id under which a launch would succeed, if it would.
    pub launch: Option<u32>,
}

/// A whole spawn attempt, seen from outside.
pub struct SpawnRun {
    /// The handle when the attempt is over.
    pub handle: HandleView,
    /// How the attempt ended.
    pub outcome: SpawnOutcome,
    /// The reactions that the caller was handed, in order, without the empty
    /// ones.
    pub reactions: Seq<Reaction>,
    /// How often the caller was told to launch a child.
    pub launches: nat,
}

/// The event with which the world of `answers` meets `stage`.
pub open spec fn spec_answer(stage: SpawnStage, answers: SpawnAnswers) -> SpawnEvent {
    match stage {
        SpawnStage::PollProcess => SpawnEvent::ProcessPolled(answers.poll),
        SpawnStage::ProbeHealth => SpawnEvent::HealthProbed(answers.reachable),
        SpawnStage::InspectListeners => SpawnEvent::ListenersInspected(answers.listener),
        SpawnStage::CheckEntry => SpawnEvent::EntryChecked(answers.entry_exists),
        SpawnStage::Launch => match answers.launch {
            Some(pid) => SpawnEvent::Launched(pid),
            None => SpawnEvent::LaunchFailed,
        },
        SpawnStage::Finished(_) => SpawnEvent::LaunchFailed,
    }
}

/// How many observations an attempt at `stage` can still ask for.
pub open spec fn spec_stages_left(stage: SpawnStage) -> nat {
    match stage {
        SpawnStage::PollProcess => 5,
        SpawnStage::ProbeHealth => 4,
        SpawnStage::InspectListeners => 3,
        SpawnStage::CheckEntry => 2,
        SpawnStage::Launch => 1,
        SpawnStage::Finished(_) => 0,
    }
}

/// The attempt that stands at `stage` with handle `h`, run to its end in the
/// world of `answers`.
pub open spec fn spec_spawn_from(h: HandleView, stage: SpawnStage, answers: SpawnAnswers) -> SpawnRun
    decreases spec_stages_left(stage),
{
    match stage {
        SpawnStage::Finished(outcome) => SpawnRun {
            handle: h,
            outcome,
            reactions: Seq::empty(),
            launches: 0,
        },
        _ => {
            let event = spec_answer(stage, answers);
            let reaction = spec_spawn_reaction(h, stage, event);
            let rest = spec_spawn_from(
                spec_spawn_handle(h, stage, event),
                spec_spawn_stage(h, stage, event),
                answers,
            );
            SpawnRun {
                handle: rest.handle,
                outcome: rest.outcome,
                reactions: if reaction is Nothing {
                    rest.reactions
                } else {
                    seq![reaction] + rest.reactions
                },
                launches: if stage is Launch {
                    rest.launches + 1
                } else {
                    rest.launches
                },
            }
        },
    }
}

/// A whole spawn attempt on handle `h` in the world of `answers`.
pub open spec fn spec_spawn(h: HandleView, answers: SpawnAnswers) -> SpawnRun {
    spec_spawn_from(h, spec_spawn_entry(h), answers)
}

/// Readiness and its notification come together in every step of a spawn
/// attempt: where a step announces `BackendReady` the handle is `Ready` after
/// it, and where a step makes a handle `Ready` that was not, it announces
/// `BackendReady`.
pub proof fn law_spawn_step_announces_readiness(h: HandleView, stage: SpawnStage, event: SpawnEvent)
    requires
        h.wf(),
    ensures
        spec_spawn_handle(h, stage, event).wf(),
        spec_spawn_reaction(h, stage, event) == Reaction::Announce(
            Notification::BackendReady,
        ) ==> spec_spawn_handle(h, stage, event).ready(),
        !h.ready() && spec_spawn_handle(h, stage, event).ready() ==> spec_spawn_reaction(
            h,
            stage,
            event,
        ) == Reaction::Announce(Notification::BackendReady),
{
}

/// A spawn attempt asks for at most five observations, and each step of it
/// leaves fewer to ask for.
pub proof fn law_spawn_terminates(h: HandleView, stage: SpawnStage, answers: SpawnAnswers)
    requires
        !(stage is Finished),
    ensures
        spec_stages_left(spec_spawn_stage(h, stage, spec_answer(stage, answers)))
            < spec_stages_left(stage),
{
}

/// A spawn attempt keeps the handle well formed.
pub proof fn law_spawn_keeps_handle_well_formed(h: HandleView, answers: SpawnAnswers)
    requires
        h.wf(),
    ensures
        spec_spawn(h, answers).handle.wf(),
{
    reveal_with_fuel(spec_spawn_from, 7);
}

/// Idempotent spawn: where one attempt launched a child and that child is
/// still alive, a second attempt ends at once, launches nothing and leaves the
/// handle as it was. The two attempts together start exactly one child.
pub proof fn law_spawn_is_idempotent(h: HandleView, first: SpawnAnswers, second: SpawnAnswers)
    requires
        h.wf(),
        spec_spawn(h, first).outcome is Started,
        second.poll is Running,
    ensures
        spec_spawn(h, first).launches == 1,
        spec_spawn(spec_spawn(h, first).handle, second).outcome == SpawnOutcome::AlreadyRunning,
        spec_spawn(spec_spawn(h, first).handle, second).launches == 0,
        spec_spawn(spec_spawn(h, first).handle, second).handle == spec_spawn(h, first).handle,
        spec_spawn(spec_spawn(h, first).handle, second).reactions.len() == 0,
{
    reveal_with_fuel(spec_spawn_from, 7);
}

/// The same holds while the child is ready: an attempt on a handle whose
/// recorded process is alive and starting or ready does nothing.
pub proof fn law_spawn_skips_live_backend(h: HandleView, answers: SpawnAnswers)
    requires
        h.wf(),
        h.process_id is Some,
        h.state is Starting || h.state is Ready,
        answers.poll is Running,
    ensures
        spec_spawn(h, answers).outcome == SpawnOutcome::AlreadyRunning,
        spec_spawn(h, answers).launches == 0,
        spec_spawn(h, answers).handle == h,
        spec_spawn(h, answers).reactions.len() == 0,
{
    reveal_with_fuel(spec_spawn_from, 3);
}

/// No double bind: where the endpoint answers the health probe, no attempt
/// reaches the launch, whatever the other observations are, the entry path
/// included.
pub proof fn law_no_double_bind(h: HandleView, answers: SpawnAnswers)
    requires
        h.wf(),
        answers.reachable,
    ensures
        spec_spawn(h, answers).launches == 0,
        spec_spawn(h, answers).outcome == SpawnOutcome::AlreadyRunning || spec_spawn(
            h,
            answers,
        ).outcome == SpawnOutcome::Adopted(Adoption::HealthProbe),
{
    reveal_with_fuel(spec_spawn_from, 7);
}

/// A listener with the expected command line bars the launch as well.
pub proof fn law_listener_bars_launch(h: HandleView, answers: SpawnAnswers)
    requires
        h.wf(),
        answers.listener,
    ensures
        spec_spawn(h, answers).launches == 0,
{
    reveal_with_fuel(spec_spawn_from, 7);
}

/// A child is launched only where nothing answers on the endpoint, nothing
/// matching listens on the port and the entry path exists; and then only once.
pub proof fn law_launch_needs_free_port_and_entry(h: HandleView, answers: SpawnAnswers)
    requires
        h.wf(),
    ensures
        spec_spawn(h, answers).launches <= 1,
        spec_spawn(h, answers).launches == 1 ==> !answers.reachable && !answers.listener
            && answers.entry_exists,
        spec_spawn(h, answers).launches == 1 <==> spec_spawn(h, answers).outcome is Started
            || spec_spawn(h, answers).outcome is LaunchFailed,
        spec_spawn(h, answers).outcome is Started ==> answers.launch is Some && spec_spawn(
            h,
            answers,
        ).handle == h.next(HandleEvent::Launched(answers.launch->0)),
        spec_spawn(h, answers).outcome is LaunchFailed ==> spec_spawn(h, answers).handle
            == HandleView::initial(),
{
    reveal_with_fuel(spec_spawn_from, 7);
}

/// A missing entry path: with no process recorded, nothing reachable and no
/// matching listener, the attempt reports `NotBuilt`, leaves the handle as it
/// was and hands the caller no reaction.
pub proof fn law_missing_entry_changes_nothing(h: HandleView, answers: SpawnAnswers)
    requires
        h.wf(),
        h.process_id is None,
        !answers.reachable,
        !answers.listener,
        !answers.entry_exists,
    ensures
        spec_spawn(h, answers).outcome == SpawnOutcome::NotBuilt,
        spec_spawn(h, answers).handle == h,
        spec_spawn(h, answers).reactions.len() == 0,
        spec_spawn(h, answers).launches == 0,
{
    reveal_with_fuel(spec_spawn_from, 7);
}

} // verus!
