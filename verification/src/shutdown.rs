//! Shutdown: the graceful request, the wait for the exit, the forceful end.
//!
//! A shutdown has two phases. First the caller applies
//! `HandleEvent::ShutdownRequested` and sends the graceful signal that the
//! reaction names. Then it waits: it polls the recorded process, measures the
//! time since the wait began and hands both to [`exit_wait_step`], until the
//! step says that the wait is over or that the process has to be killed.
//! Beside the wait, and without holding it up, the caller signals every
//! listener that [`crate::inspector::matching_listeners`] names and stops every
//! workload that [`workload_names`] names.

use vstd::prelude::*;
use crate::lifecycle::{BackendHandle, HandleEvent, HandleView, Notification, Reaction};
use crate::spawn::ProcessPoll;
use crate::text::{lines, spec_lines};

verus! {

/// The pause between two looks at the process while its exit is awaited, in
/// milliseconds.
pub const EXIT_POLL_INTERVAL_MS: u64 = 100;

/// How long a restart waits for the old process to exit, in milliseconds.
pub const RESTART_TIMEOUT_MS: u64 = 5000;

/// What the waiting caller does next.
#[derive(Clone, Copy, Debug, PartialEq, Eq, Structural)]
pub enum ExitWait {
    /// The wait is over: no process is recorded any more. The reaction holds
    /// the notification that is due, if one is.
    Finished(Reaction),
    /// The time is up and the process still runs: send it the forceful kill
    /// signal and end the wait. The record stays until the exit is observed.
    ForceKill(u32),
    /// Sleep for so many milliseconds, then poll again.
    PollAgain(u64),
}

/// The handle after one step of the wait.
pub open spec fn spec_exit_wait_handle(h: HandleView, poll: ProcessPoll) -> HandleView {
    if h.process_id is Some && !(poll is Running) {
        h.next(HandleEvent::ExitObserved)
    } else {
        h
    }
}

/// The decision of one step of the wait. Where no process is recorded the
/// poll does not count.
pub open spec fn spec_exit_wait(
    h: HandleView,
    poll: ProcessPoll,
    elapsed_ms: u64,
    timeout_ms: u64,
) -> ExitWait {
    match h.process_id {
        None => ExitWait::Finished(Reaction::Nothing),
        Some(pid) => if !(poll is Running) {
            ExitWait::Finished(h.reaction(HandleEvent::ExitObserved))
        } else if elapsed_ms >= timeout_ms {
            ExitWait::ForceKill(pid)
        } else {
            ExitWait::PollAgain(EXIT_POLL_INTERVAL_MS)
        },
    }
}

/// One step of the wait for the exit: `poll` is what a non-blocking wait on
/// the recorded process reported, `elapsed_ms` the time since the wait began.
pub fn exit_wait_step(
    handle: &mut BackendHandle,
    poll: ProcessPoll,
    elapsed_ms: u64,
    timeout_ms: u64,
) -> (decision: ExitWait)
    ensures
        final(handle)@ == spec_exit_wait_handle(old(handle)@, poll),
        decision == spec_exit_wait(old(handle)@, poll, elapsed_ms, timeout_ms),
        old(handle)@.wf(),
        final(handle)@.wf(),
{
    match handle.process_id() {
        None => ExitWait::Finished(Reaction::Nothing),
        Some(pid) => match poll {
            ProcessPoll::Running => if elapsed_ms >= timeout_ms {
                ExitWait::ForceKill(pid)
            } else {
                ExitWait::PollAgain(EXIT_POLL_INTERVAL_MS)
            },
            _ => ExitWait::Finished(handle.apply(HandleEvent::ExitObserved)),
        },
    }
}

/// The arguments with which `docker` lists the names of the running workloads
/// that carry the application's prefix.
pub open spec fn spec_workload_query() -> Seq<Seq<char>> {
    seq!["ps"@, "--filter"@, "name=nanoclaw-"@, "--format"@, "{{.Names}}"@]
}

/// The lines among `lines` that are not empty, in order.
pub open spec fn spec_nonempty(lines: Seq<Seq<char>>) -> Seq<Seq<char>>
    decreases lines.len(),
{
    if lines.len() == 0 {
        Seq::empty()
    } else if lines.last().len() > 0 {
        spec_nonempty(lines.drop_last()).push(lines.last())
    } else {
        spec_nonempty(lines.drop_last())
    }
}

/// The names of the workloads that a listing holds: its lines that are not
/// empty.
pub open spec fn spec_workload_names(listing: Seq<char>) -> Seq<Seq<char>> {
    spec_nonempty(spec_lines(listing))
}

/// The arguments for `docker` that list the workloads to stop, one name per
/// line.
pub fn workload_query() -> (args: Vec<String>)
    ensures
        args.deep_view() == spec_workload_query(),
{
    let mut args: Vec<String> = Vec::new();
    args.push(String::from_str("ps"));
    args.push(String::from_str("--filter"));
    args.push(String::from_str("name=nanoclaw-"));
    args.push(String::from_str("--format"));
    args.push(String::from_str("{{.Names}}"));
    assert(args.deep_view() =~= spec_workload_query());
    args
}

/// The names of the workloads to stop, as `listing` holds them.
pub fn workload_names(listing: &str) -> (names: Vec<String>)
    ensures
        names.deep_view() == spec_workload_names(listing@),
{
    let all = lines(listing);
    let ghost all_view = all.deep_view();
    let mut names: Vec<String> = Vec::new();
    let mut i: usize = 0;
    proof {
        assert(all_view.take(0) =~= Seq::<Seq<char>>::empty());
        assert(names.deep_view() =~= spec_nonempty(all_view.take(0)));
    }
    while i < all.len()
        invariant
            i <= all.len(),
            all_view == all.deep_view(),
            names.deep_view() == spec_nonempty(all_view.take(i as int)),
        decreases all.len() - i,
    {
        let ghost before = names.deep_view();
        proof {
            assert(all_view.take(i + 1).drop_last() =~= all_view.take(i as int));
            assert(all_view.take(i + 1).last() == all@[i as int]@);
        }
        if !all[i].as_str().is_empty() {
            names.push(all[i].clone());
            proof {
                assert(names.deep_view() =~= before.push(all@[i as int]@));
            }
        }
        i += 1;
    }
    proof {
        assert(all_view.take(i as int) =~= all_view);
    }
    names
}

/// The arguments for `docker` that stop the workload `name`.
pub fn workload_stop(name: &str) -> (args: Vec<String>)
    ensures
        args.deep_view() == seq!["stop"@, name@],
{
    let mut args: Vec<String> = Vec::new();
    args.push(String::from_str("stop"));
    args.push(String::from_str(name));
    assert(args.deep_view() =~= seq!["stop"@, name@]);
    args
}

/// The wait keeps the handle well formed.
pub proof fn law_exit_wait_keeps_handle_well_formed(h: HandleView, poll: ProcessPoll)
    requires
        h.wf(),
    ensures
        spec_exit_wait_handle(h, poll).wf(),
{
}

/// Shutdown escalation. A process that ignores the graceful signal keeps
/// running, so every poll of it reports `Running`. For a handle with such a
/// process recorded: the request names that process for the graceful signal,
/// leaves the handle `StoppingRequested` and not ready; a poll before the
/// timeout asks for one more poll interval of sleep; a poll at or after the
/// timeout names the same process for the kill; and no such poll changes the
/// handle, so that it stays neither ready nor starting.
pub proof fn law_shutdown_escalates(h: HandleView, pid: u32, elapsed_ms: u64, timeout_ms: u64)
    requires
        h.wf(),
        h.process_id == Some(pid),
    ensures
        h.reaction(HandleEvent::ShutdownRequested) == Reaction::Terminate(pid),
        h.next(HandleEvent::ShutdownRequested).state is StoppingRequested,
        !h.next(HandleEvent::ShutdownRequested).ready(),
        elapsed_ms < timeout_ms ==> spec_exit_wait(
            h.next(HandleEvent::ShutdownRequested),
            ProcessPoll::Running,
            elapsed_ms,
            timeout_ms,
        ) == ExitWait::PollAgain(EXIT_POLL_INTERVAL_MS),
        elapsed_ms >= timeout_ms ==> spec_exit_wait(
            h.next(HandleEvent::ShutdownRequested),
            ProcessPoll::Running,
            elapsed_ms,
            timeout_ms,
        ) == ExitWait::ForceKill(pid),
        spec_exit_wait_handle(h.next(HandleEvent::ShutdownRequested), ProcessPoll::Running)
            == h.next(HandleEvent::ShutdownRequested),
{
}

/// The wait never goes on once the time is up, whatever the handle and the
/// poll: it sleeps only while `elapsed_ms < timeout_ms`, and then for one poll
/// interval.
pub proof fn law_exit_wait_is_bounded(
    h: HandleView,
    poll: ProcessPoll,
    elapsed_ms: u64,
    timeout_ms: u64,
)
    requires
        h.wf(),
    ensures
        spec_exit_wait(h, poll, elapsed_ms, timeout_ms) is PollAgain ==> elapsed_ms < timeout_ms
            && spec_exit_wait(h, poll, elapsed_ms, timeout_ms) == ExitWait::PollAgain(
            EXIT_POLL_INTERVAL_MS,
        ),
        elapsed_ms >= timeout_ms ==> !(spec_exit_wait(h, poll, elapsed_ms, timeout_ms)
            is PollAgain),
{
}

/// How many polls a wait takes before it has ended, where `polls` holds what
/// each poll would report and the time at which it is made.
pub open spec fn spec_exit_wait_polls(
    h: HandleView,
    polls: Seq<(ProcessPoll, u64)>,
    timeout_ms: u64,
) -> nat
    decreases polls.len(),
{
    if polls.len() == 0 {
        0
    } else if spec_exit_wait(h, polls[0].0, polls[0].1, timeout_ms) is PollAgain {
        1 + spec_exit_wait_polls(
            spec_exit_wait_handle(h, polls[0].0),
            polls.drop_first(),
            timeout_ms,
        )
    } else {
        1
    }
}

/// The wait ends with the first poll that is made at or after the timeout, if
/// not before: where poll `k` is made that late, the wait takes at most
/// `k + 1` polls, whatever the process does.
pub proof fn law_exit_wait_ends_by_the_first_late_poll(
    h: HandleView,
    polls: Seq<(ProcessPoll, u64)>,
    timeout_ms: u64,
    k: int,
)
    requires
        h.wf(),
        0 <= k < polls.len(),
        polls[k].1 >= timeout_ms,
    ensures
        spec_exit_wait_polls(h, polls, timeout_ms) <= k + 1,
    decreases k,
{
    if k > 0 && spec_exit_wait(h, polls[0].0, polls[0].1, timeout_ms) is PollAgain {
        let rest = polls.drop_first();
        assert(rest[k - 1] == polls[k]);
        law_exit_wait_ends_by_the_first_late_poll(
            spec_exit_wait_handle(h, polls[0].0),
            rest,
            timeout_ms,
            k - 1,
        );
    }
}

/// Where the process is seen to have exited, the wait ends with the record
/// cleared and the exit announced; where none is recorded it ends at once.
pub proof fn law_exit_ends_the_wait(h: HandleView, poll: ProcessPoll, elapsed_ms: u64, timeout_ms: u64)
    requires
        h.wf(),
    ensures
        h.process_id is None ==> spec_exit_wait(h, poll, elapsed_ms, timeout_ms)
            == ExitWait::Finished(Reaction::Nothing) && spec_exit_wait_handle(h, poll) == h,
        h.process_id is Some && !(poll is Running) ==> spec_exit_wait_handle(h, poll)
            == HandleView::initial() && spec_exit_wait(h, poll, elapsed_ms, timeout_ms)
            == ExitWait::Finished(
            Reaction::Announce(Notification::BackendStopped),
        ),
{
}

} // verus!
