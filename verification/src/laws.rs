//! What holds of the registry, the resolver and the supervisor over every
//! sequence of events.

use vstd::prelude::*;
use crate::health::{after_pause, after_poll, HealthView, PollAnswer};
use crate::messages::{already_running_text, exited_text, running_text, started_text};
use crate::paths::{
    candidate_texts, canonical_or_failure, is_first_existing, lemma_first_existing_unique,
    none_existing, resolution, Probe,
};
use crate::registry::{
    claim_answer, slot_after_probe, status_answer, status_text, Claim, Liveness, Registry,
    StatusView,
};
use crate::supervisor::{
    initial, next, pending, ActionView, Event, Operation, Stage, SupervisorView, MAX_ATTEMPTS,
    MAX_POLLS,
};

verus! {

/// A registry never holds more than one handle.
pub proof fn lemma_at_most_one_handle<H>(registry: Registry<H>)
    ensures
        registry.live_handles() <= 1,
{
}

/// Whatever a probe finds, the slot it leaves holds at most the handle that was
/// there: probing never adds a handle.
pub proof fn lemma_probe_never_adds_a_handle<H>(slot: Option<H>, liveness: Liveness)
    ensures
        slot_after_probe(slot, liveness) is Some ==> slot_after_probe(slot, liveness) == slot,
{
}

/// Resolution yields the first candidate that exists, in priority order: its
/// canonical form, or the error of canonicalizing it.
pub proof fn lemma_resolution_takes_first_existing(
    candidates: Seq<Seq<char>>,
    probes: Seq<Probe>,
    index: int,
)
    requires
        is_first_existing(probes, candidates.len() as int, index),
    ensures
        resolution(candidates, probes) == canonical_or_failure(probes[index], candidates[0]),
{
    let chosen = choose|i: int| is_first_existing(probes, candidates.len() as int, i);
    lemma_first_existing_unique(probes, candidates.len() as int, chosen, index);
}

/// When no candidate exists, resolution yields the first candidate as written.
pub proof fn lemma_resolution_falls_back(candidates: Seq<Seq<char>>, probes: Seq<Probe>)
    requires
        none_existing(probes, candidates.len() as int),
    ensures
        resolution(candidates, probes) == Ok::<Seq<char>, Seq<char>>(candidates[0]),
{
    assert forall|i: int| !is_first_existing(probes, candidates.len() as int, i) by {}
}

/// The steps of a health monitor keep it well formed: it never counts more
/// polls than it was given.
pub proof fn lemma_monitor_stays_within_its_polls(h: HealthView, answer: PollAnswer)
    requires
        h.wf(),
    ensures
        after_poll(h, answer).wf(),
        after_pause(h).wf(),
        after_poll(h, answer).polls <= h.max_attempts,
        after_pause(h).polls <= h.max_attempts,
{
}

/// Every event leaves a well-formed supervisor well formed: the attempts begun
/// never exceed `MAX_ATTEMPTS`, the polls answered never exceed `MAX_POLLS`.
pub proof fn lemma_next_keeps_wf(v: SupervisorView, event: Event)
    requires
        v.wf(),
    ensures
        next(v, event).wf(),
        next(v, event).attempts <= MAX_ATTEMPTS,
        next(v, event).monitor.polls <= MAX_POLLS,
        next(v, event).operation == v.operation,
{
}

/// Whether `event` reports the result of the action that is due at `v`.
pub open spec fn answers(v: SupervisorView, event: Event) -> bool {
    match (pending(v), event) {
        (ActionView::Stop, Event::Completed) => true,
        (ActionView::ReapConflicts, Event::Completed) => true,
        (ActionView::Sleep(_), Event::Completed) => true,
        (ActionView::Install, Event::Completed) => true,
        (ActionView::Claim, Event::Claimed(_)) => true,
        (ActionView::ProbePaths, Event::Probed(_)) => true,
        (ActionView::Spawn(_), Event::Spawned) => true,
        (ActionView::Spawn(_), Event::SpawnFailed(_)) => true,
        (ActionView::PollHealth, Event::Polled(_)) => true,
        _ => false,
    }
}

/// An event that does not answer the action that is due changes nothing, and
/// once the supervisor is over no event answers.
pub proof fn lemma_only_answers_count(v: SupervisorView, event: Event)
    requires
        v.wf(),
    ensures
        !answers(v, event) ==> next(v, event) == v,
        v.stage is Finished ==> !answers(v, event),
{
}

/// What is counted along a run of the supervisor.
pub enum Measure {
    /// Events that answered the action that was due.
    Steps,
    /// Outer attempts: stops of the tracked process that were carried out.
    Attempts,
    /// Spawns of the runtime that were tried.
    Spawns,
    /// Health polls that were answered.
    Polls,
    /// Milliseconds slept.
    SleepMs,
}

/// What `event` adds to `measure` when it arrives at `v`.
pub open spec fn cost(v: SupervisorView, event: Event, measure: Measure) -> nat {
    match measure {
        Measure::Steps => if answers(v, event) {
            1
        } else {
            0
        },
        Measure::Attempts => if v.stage is Stopping && event is Completed {
            1
        } else {
            0
        },
        Measure::Spawns => if v.stage is Spawning && (event is Spawned || event is SpawnFailed) {
            1
        } else {
            0
        },
        Measure::Polls => if pending(v) is PollHealth && event is Polled {
            1
        } else {
            0
        },
        Measure::SleepMs => match (pending(v), event) {
            (ActionView::Sleep(ms), Event::Completed) => ms,
            _ => 0,
        },
    }
}

/// The supervisor after all of `events`, in order.
pub open spec fn run(v: SupervisorView, events: Seq<Event>) -> SupervisorView
    decreases events.len(),
{
    if events.len() == 0 {
        v
    } else {
        run(next(v, events[0]), events.drop_first())
    }
}

/// What all of `events`, arriving in order from `v`, add to `measure`.
pub open spec fn total(v: SupervisorView, events: Seq<Event>, measure: Measure) -> nat
    decreases events.len(),
{
    if events.len() == 0 {
        0
    } else {
        cost(v, events[0], measure) + total(next(v, events[0]), events.drop_first(), measure)
    }
}

/// Whether a spawn may still come in the attempt that `stage` belongs to.
pub open spec fn before_spawn_result(stage: Stage) -> bool {
    stage is Stopping || stage is Clearing || stage is Resting || stage is Claiming
        || stage is Reaping || stage is Settling || stage is Resolving || stage is Spawning
}

/// The most that a startup sequence can still sleep once the current launch
/// has ended: every further attempt with its backoff, then every pause.
pub open spec fn sleep_after_launch(v: SupervisorView) -> nat {
    if v.operation is Startup {
        ((MAX_ATTEMPTS - v.attempts) * 3500 + 15000) as nat
    } else {
        0
    }
}

/// The answers that the current launch can still take, up to and including the
/// one that ends it.
pub open spec fn steps_of_launch(stage: Stage) -> nat {
    match stage {
        Stage::Stopping => 9,
        Stage::Clearing => 8,
        Stage::Resting => 7,
        Stage::Claiming => 6,
        Stage::Reaping => 5,
        Stage::Settling => 4,
        Stage::Resolving => 3,
        Stage::Spawning => 2,
        Stage::Installing => 1,
        _ => 0,
    }
}

/// The answers that a startup sequence can still take once the current launch
/// has ended: every further backoff and attempt, then every poll and pause.
pub open spec fn steps_after_launch(v: SupervisorView) -> nat {
    if v.operation is Startup {
        ((MAX_ATTEMPTS - v.attempts) * 9 + 30) as nat
    } else {
        0
    }
}

/// The most that any continuation from `v` can still add to `measure`.
pub open spec fn budget(v: SupervisorView, measure: Measure) -> nat {
    let retries: nat = if v.operation is Startup {
        (MAX_ATTEMPTS - v.attempts) as nat
    } else {
        0
    };
    match measure {
        Measure::Steps => match v.stage {
            Stage::Finished => 0,
            Stage::Checking => ((MAX_POLLS - v.monitor.polls) * 2 + if v.monitor.phase
                is Pausing {
                1int
            } else {
                0int
            }) as nat,
            Stage::BackingOff => 1 + steps_after_launch(v),
            _ => steps_of_launch(v.stage) + steps_after_launch(v),
        },
        Measure::Attempts => if v.stage is Stopping {
            retries + 1
        } else if v.stage is Installing || v.stage is Checking || v.stage is Finished {
            0
        } else {
            retries
        },
        Measure::Spawns => if before_spawn_result(v.stage) {
            retries + 1
        } else if v.stage is BackingOff {
            retries
        } else {
            0
        },
        Measure::Polls => match v.stage {
            Stage::Finished => 0,
            Stage::Checking => (MAX_POLLS - v.monitor.polls) as nat,
            _ => if v.operation is Startup {
                MAX_POLLS as nat
            } else {
                0
            },
        },
        Measure::SleepMs => match v.stage {
            Stage::Stopping | Stage::Clearing | Stage::Resting => 1500 + sleep_after_launch(v),
            Stage::Claiming | Stage::Reaping | Stage::Settling => 500 + sleep_after_launch(v),
            Stage::Resolving | Stage::Spawning | Stage::Installing => sleep_after_launch(v),
            Stage::BackingOff => sleep_after_launch(v),
            Stage::Checking => ((MAX_POLLS - v.monitor.polls) * 1000 + if v.monitor.phase
                is Pausing {
                1000int
            } else {
                0int
            }) as nat,
            Stage::Finished => 0,
        },
    }
}

/// One event spends no more than the budget loses.
pub proof fn lemma_step_within_budget(v: SupervisorView, event: Event, measure: Measure)
    requires
        v.wf(),
    ensures
        cost(v, event, measure) + budget(next(v, event), measure) <= budget(v, measure),
{
}

/// No sequence of events spends more than the budget of the state it starts from.
pub proof fn lemma_run_within_budget(v: SupervisorView, events: Seq<Event>, measure: Measure)
    requires
        v.wf(),
    ensures
        total(v, events, measure) <= budget(v, measure),
        run(v, events).wf(),
    decreases events.len(),
{
    if events.len() > 0 {
        lemma_next_keeps_wf(v, events[0]);
        lemma_step_within_budget(v, events[0], measure);
        lemma_run_within_budget(next(v, events[0]), events.drop_first(), measure);
    }
}

/// Whatever the host reports, the startup sequence makes at most three outer
/// attempts, tries at most three spawns, sends at most fifteen health polls,
/// sleeps at most 23.5 seconds in all and is over within 57 answers.
pub proof fn lemma_startup_is_bounded(events: Seq<Event>)
    ensures
        total(initial(Operation::Startup), events, Measure::Steps) <= 57,
        total(initial(Operation::Startup), events, Measure::Attempts) <= 3,
        total(initial(Operation::Startup), events, Measure::Spawns) <= 3,
        total(initial(Operation::Startup), events, Measure::Polls) <= 15,
        total(initial(Operation::Startup), events, Measure::SleepMs) <= 23500,
{
    let v = initial(Operation::Startup);
    lemma_run_within_budget(v, events, Measure::Steps);
    lemma_run_within_budget(v, events, Measure::Attempts);
    lemma_run_within_budget(v, events, Measure::Spawns);
    lemma_run_within_budget(v, events, Measure::Polls);
    lemma_run_within_budget(v, events, Measure::SleepMs);
}

/// Whatever the host reports, a start tries at most one spawn, polls nothing,
/// sleeps at most half a second and is over within six answers; a restart
/// stops once, tries at most one spawn, polls nothing, sleeps at most one and a
/// half seconds and is over within nine answers.
pub proof fn lemma_single_launch_is_bounded(events: Seq<Event>)
    ensures
        total(initial(Operation::Start), events, Measure::Steps) <= 6,
        total(initial(Operation::Restart), events, Measure::Steps) <= 9,
        total(initial(Operation::Start), events, Measure::Attempts) == 0,
        total(initial(Operation::Start), events, Measure::Spawns) <= 1,
        total(initial(Operation::Start), events, Measure::Polls) == 0,
        total(initial(Operation::Start), events, Measure::SleepMs) <= 500,
        total(initial(Operation::Restart), events, Measure::Attempts) <= 1,
        total(initial(Operation::Restart), events, Measure::Spawns) <= 1,
        total(initial(Operation::Restart), events, Measure::Polls) == 0,
        total(initial(Operation::Restart), events, Measure::SleepMs) <= 1500,
{
    let s = initial(Operation::Start);
    lemma_run_within_budget(s, events, Measure::Steps);
    lemma_run_within_budget(s, events, Measure::Attempts);
    lemma_run_within_budget(s, events, Measure::Spawns);
    lemma_run_within_budget(s, events, Measure::Polls);
    lemma_run_within_budget(s, events, Measure::SleepMs);
    let r = initial(Operation::Restart);
    lemma_run_within_budget(r, events, Measure::Steps);
    lemma_run_within_budget(r, events, Measure::Attempts);
    lemma_run_within_budget(r, events, Measure::Spawns);
    lemma_run_within_budget(r, events, Measure::Polls);
    lemma_run_within_budget(r, events, Measure::SleepMs);
}

/// Health is advisory: once a launch of the startup sequence has succeeded, no
/// report changes its outcome, and nothing is stopped or spawned again.
pub proof fn lemma_health_is_advisory(v: SupervisorView, events: Seq<Event>)
    requires
        v.wf(),
        v.stage is Checking || v.stage is Finished,
    ensures
        run(v, events).outcome == v.outcome,
        run(v, events).stage is Checking || run(v, events).stage is Finished,
        total(v, events, Measure::Attempts) == 0,
        total(v, events, Measure::Spawns) == 0,
    decreases events.len(),
{
    lemma_run_within_budget(v, events, Measure::Attempts);
    lemma_run_within_budget(v, events, Measure::Spawns);
    if events.len() > 0 {
        lemma_next_keeps_wf(v, events[0]);
        lemma_health_is_advisory(next(v, events[0]), events.drop_first());
    }
}

/// A start issued while the installed handle is alive is answered "already
/// running": the registry keeps the handle, the supervisor is over at once and
/// no later event makes it spawn.
pub proof fn lemma_second_start_spawns_nothing<H>(handle: H, later: Seq<Event>)
    ensures
        claim_answer(Some(handle), Liveness::Alive) == Ok::<Claim, Seq<char>>(
            Claim::AlreadyRunning,
        ),
        slot_after_probe(Some(handle), Liveness::Alive) == Some(handle),
        ({
            let v = next(initial(Operation::Start), Event::Claimed(Ok(Claim::AlreadyRunning)));
            &&& pending(v) == ActionView::Finish(Ok(already_running_text()))
            &&& total(v, later, Measure::Spawns) == 0
        }),
{
    let v = next(initial(Operation::Start), Event::Claimed(Ok(Claim::AlreadyRunning)));
    lemma_next_keeps_wf(initial(Operation::Start), Event::Claimed(Ok(Claim::AlreadyRunning)));
    lemma_run_within_budget(v, later, Measure::Spawns);
}

/// Once the tracked process has exited, a status query reports the exit and
/// clears the slot; the claim of the next start then finds nothing tracked,
/// whatever a probe would say, and that start goes on to a spawn of the
/// resolved script.
pub proof fn lemma_exit_is_reported_then_start_is_fresh<H>(
    handle: H,
    status: String,
    stale: Liveness,
    probes: Vec<Probe>,
)
    requires
        resolution(candidate_texts(), probes@) is Ok,
    ensures
        status_answer(Some(handle), Liveness::Exited(status)) == Ok::<StatusView, Seq<char>>(
            StatusView::Exited(status@),
        ),
        status_text(StatusView::Exited(status@)) == exited_text(status@),
        slot_after_probe(Some(handle), Liveness::Exited(status)) is None,
        claim_answer(None::<H>, stale) == Ok::<Claim, Seq<char>>(Claim::ClaimedAbsent),
        ({
            let claimed = next(
                initial(Operation::Start),
                Event::Claimed(Ok(Claim::ClaimedAbsent)),
            );
            let reaped = next(claimed, Event::Completed);
            let settled = next(reaped, Event::Completed);
            let resolved = next(settled, Event::Probed(probes));
            &&& pending(claimed) == ActionView::ReapConflicts
            &&& pending(settled) == ActionView::ProbePaths
            &&& pending(resolved) == ActionView::Spawn(
                resolution(candidate_texts(), probes@)->Ok_0,
            )
        }),
{
}

/// A restart whose script resolves and whose spawn succeeds ends with the
/// "started" outcome, and a status query on the installed handle, while it is
/// alive, reports "running". What was tracked before plays no part: the stop
/// leaves the registry empty, so the claim finds nothing whatever a probe says.
pub proof fn lemma_restart_ends_running<H>(stale: Liveness, probes: Vec<Probe>, spawned: H)
    requires
        resolution(candidate_texts(), probes@) is Ok,
    ensures
        claim_answer(None::<H>, stale) == Ok::<Claim, Seq<char>>(Claim::ClaimedAbsent),
        ({
            let path = resolution(candidate_texts(), probes@)->Ok_0;
            let stopped = next(initial(Operation::Restart), Event::Completed);
            let cleared = next(stopped, Event::Completed);
            let rested = next(cleared, Event::Completed);
            let claimed = next(rested, Event::Claimed(Ok(Claim::ClaimedAbsent)));
            let reaped = next(claimed, Event::Completed);
            let settled = next(reaped, Event::Completed);
            let resolved = next(settled, Event::Probed(probes));
            let spawning = next(resolved, Event::Spawned);
            let installed = next(spawning, Event::Completed);
            &&& pending(resolved) == ActionView::Spawn(path)
            &&& pending(spawning) == ActionView::Install
            &&& pending(installed) == ActionView::Finish(Ok(started_text(path)))
        }),
        status_answer(Some(spawned), Liveness::Alive) == Ok::<StatusView, Seq<char>>(
            StatusView::Running,
        ),
        status_text(StatusView::Running) == running_text(),
{
}

} // verus!
