//! The readiness poller: after a launch, probe until the backend answers.
//!
//! The poller runs beside the supervisor. Before each probe it asks
//! [`poller_plan`] whether to go on; after each probe it hands the result to
//! [`poller_observe`]. It ends when the backend answered, when no process is
//! recorded any more, or when its budget of probes is spent. A spent budget
//! declares no failure: the handle stays as it is until a restart or the
//! process's own exit.

use vstd::prelude::*;
use crate::lifecycle::{BackendHandle, HandleEvent, HandleView, Notification, Reaction};

verus! {

/// How many probes the poller makes at most.
pub const READINESS_ATTEMPTS: u32 = 80;

/// The pause between two probes, in milliseconds.
pub const READINESS_INTERVAL_MS: u64 = 250;

/// Whether the poller goes on.
#[derive(Clone, Copy, Debug, PartialEq, Eq, Structural)]
pub enum PollerPlan {
    /// Probe the endpoint's health.
    Probe,
    /// End the poller.
    Stop,
}

/// What the poller does after a probe.
#[derive(Clone, Copy, Debug, PartialEq, Eq, Structural)]
pub enum PollerVerdict {
    /// The endpoint answered: the poller ends. The reaction holds the
    /// notification that is due, if one is.
    Finished(Reaction),
    /// The endpoint did not answer: sleep for so many milliseconds, then ask
    /// for the plan again.
    RetryAfter(u64),
}

/// The plan after `attempts_made` probes: probe while the budget lasts and a
/// process is recorded.
pub open spec fn spec_poller_plan(h: HandleView, attempts_made: u32) -> PollerPlan {
    if attempts_made < READINESS_ATTEMPTS && h.process_id is Some {
        PollerPlan::Probe
    } else {
        PollerPlan::Stop
    }
}

/// The handle after a probe.
pub open spec fn spec_poller_handle(h: HandleView, reachable: bool) -> HandleView {
    if reachable {
        h.next(HandleEvent::ProbeSucceeded)
    } else {
        h
    }
}

/// The verdict after a probe.
pub open spec fn spec_poller_verdict(h: HandleView, reachable: bool) -> PollerVerdict {
    if reachable {
        PollerVerdict::Finished(h.reaction(HandleEvent::ProbeSucceeded))
    } else {
        PollerVerdict::RetryAfter(READINESS_INTERVAL_MS)
    }
}

/// Whether the poller, having made `attempts_made` probes, makes another.
pub fn poller_plan(handle: &BackendHandle, attempts_made: u32) -> (plan: PollerPlan)
    ensures
        plan == spec_poller_plan(handle@, attempts_made),
{
    if attempts_made < READINESS_ATTEMPTS && handle.process_id().is_some() {
        PollerPlan::Probe
    } else {
        PollerPlan::Stop
    }
}

/// Takes in the result of a probe. A success turns a `Starting` handle
/// `Ready`, once, and ends the poller; a failure leaves the handle alone.
pub fn poller_observe(handle: &mut BackendHandle, reachable: bool) -> (verdict: PollerVerdict)
    ensures
        final(handle)@ == spec_poller_handle(old(handle)@, reachable),
        verdict == spec_poller_verdict(old(handle)@, reachable),
        old(handle)@.wf(),
        final(handle)@.wf(),
{
    if reachable {
        PollerVerdict::Finished(handle.apply(HandleEvent::ProbeSucceeded))
    } else {
        proof {
            use_type_invariant(&*handle);
        }
        PollerVerdict::RetryAfter(READINESS_INTERVAL_MS)
    }
}

/// The poller's budget: after `READINESS_ATTEMPTS` probes it stops, whatever
/// the handle holds, and it stops as soon as no process is recorded. With the
/// pause between probes that is a ceiling of twenty seconds of pauses.
pub proof fn law_poller_is_bounded(h: HandleView, attempts_made: u32)
    ensures
        attempts_made >= READINESS_ATTEMPTS ==> spec_poller_plan(h, attempts_made)
            == PollerPlan::Stop,
        h.process_id is None ==> spec_poller_plan(h, attempts_made) == PollerPlan::Stop,
        READINESS_ATTEMPTS * READINESS_INTERVAL_MS == 20_000,
{
}

/// The poller makes a handle ready only from `Starting`, and only then does
/// it announce readiness; a failed probe changes nothing.
pub proof fn law_poller_announces_what_it_changes(h: HandleView, reachable: bool)
    requires
        h.wf(),
    ensures
        spec_poller_handle(h, reachable).wf(),
        spec_poller_verdict(h, reachable) == PollerVerdict::Finished(
            Reaction::Announce(Notification::BackendReady),
        ) <==> reachable && h.state is Starting,
        reachable && h.state is Starting ==> spec_poller_handle(h, reachable).state is Ready
            && spec_poller_handle(h, reachable).process_id == h.process_id,
        !(reachable && h.state is Starting) ==> spec_poller_handle(h, reachable) == h,
{
}

} // verus!
