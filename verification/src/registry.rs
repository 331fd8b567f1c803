//! The registry: exclusive owner of at most one process handle.
//!
//! The handle type `H` is whatever the host uses to signal and query an
//! operating-system process. The registry never looks inside it; the host probes
//! or kills the handle and reports the result as a plain value.

use vstd::prelude::*;
use crate::messages::{
    exited_message, exited_text, kill_failure_message, kill_failure_text, no_process_message,
    no_process_text, nothing_to_stop_message, nothing_to_stop_text, outcome_view,
    probe_failure_message, probe_failure_text, running_message, running_text, stopped_message,
    stopped_text,
};

verus! {

/// What a liveness probe of a tracked handle found.
#[derive(Debug, PartialEq, Eq)]
pub enum Liveness {
    /// The process has not terminated.
    Alive,
    /// The process has terminated; the text is its rendered exit status.
    Exited(String),
    /// The operating system could not answer; the text is its error.
    ProbeFailed(String),
}

/// Whether a launch may go ahead.
#[derive(Clone, Copy, Debug, PartialEq, Eq, Structural)]
pub enum Claim {
    AlreadyRunning,
    ClaimedAbsent,
}

/// What a status query reports.
#[derive(Debug, PartialEq, Eq)]
pub enum Status {
    Running,
    Exited(String),
    Absent,
}

/// The view of a status: its variant and, for an exit, the status text.
pub enum StatusView {
    Running,
    Exited(Seq<char>),
    Absent,
}

impl View for Status {
    type V = StatusView;

    open spec fn view(&self) -> StatusView {
        match *self {
            Status::Running => StatusView::Running,
            Status::Exited(text) => StatusView::Exited(text@),
            Status::Absent => StatusView::Absent,
        }
    }
}

/// The slot after a claim: an observed exit clears it, anything else keeps it.
pub open spec fn slot_after_probe<H>(slot: Option<H>, liveness: Liveness) -> Option<H> {
    match liveness {
        Liveness::Exited(_) => None,
        _ => slot,
    }
}

/// The answer of a claim on `slot`, given the probe of the tracked handle.
pub open spec fn claim_answer<H>(slot: Option<H>, liveness: Liveness) -> Result<Claim, Seq<char>> {
    match slot {
        None => Ok(Claim::ClaimedAbsent),
        Some(_) => match liveness {
            Liveness::Alive => Ok(Claim::AlreadyRunning),
            Liveness::Exited(_) => Ok(Claim::ClaimedAbsent),
            Liveness::ProbeFailed(cause) => Err(probe_failure_text(cause@)),
        },
    }
}

/// The answer of a status query on `slot`, given the probe of the tracked handle.
pub open spec fn status_answer<H>(slot: Option<H>, liveness: Liveness) -> Result<
    StatusView,
    Seq<char>,
> {
    match slot {
        None => Ok(StatusView::Absent),
        Some(_) => match liveness {
            Liveness::Alive => Ok(StatusView::Running),
            Liveness::Exited(status) => Ok(StatusView::Exited(status@)),
            Liveness::ProbeFailed(cause) => Err(probe_failure_text(cause@)),
        },
    }
}

/// The outcome of a stop, given what killing the removed handle returned
/// (`None` when there was no handle to kill).
pub open spec fn stop_answer(killed: Option<Result<(), String>>) -> Result<Seq<char>, Seq<char>> {
    match killed {
        None => Ok(nothing_to_stop_text()),
        Some(Ok(_)) => Ok(stopped_text()),
        Some(Err(cause)) => Err(kill_failure_text(cause@)),
    }
}

/// The short description of a status.
pub open spec fn status_text(status: StatusView) -> Seq<char> {
    match status {
        StatusView::Running => running_text(),
        StatusView::Exited(code) => exited_text(code),
        StatusView::Absent => no_process_text(),
    }
}

pub struct Registry<H> {
    slot: Option<H>,
}

impl<H> View for Registry<H> {
    type V = Option<H>;

    closed spec fn view(&self) -> Option<H> {
        self.slot
    }
}

impl<H> Registry<H> {
    /// The number of handles held: one when tracking, none otherwise.
    pub open spec fn live_handles(&self) -> nat {
        match self@ {
            Some(_) => 1,
            None => 0,
        }
    }

    /// A registry that tracks nothing.
    pub fn new() -> (registry: Self)
        ensures
            registry@ is None,
    {
        Registry { slot: None }
    }

    pub fn is_tracking(&self) -> (tracking: bool)
        ensures
            tracking == (self@ is Some),
    {
        self.slot.is_some()
    }

    /// Lends the tracked handle, if any, so that the host can probe it.
    pub fn handle_mut(&mut self) -> (handle: Option<&mut H>)
        ensures
            match old(self)@ {
                None => final(self)@ is None && handle is None,
                Some(h) => final(self)@ is Some && handle is Some && *handle.unwrap() == h
                    && *final(handle.unwrap()) == final(self)@.unwrap(),
            },
    {
        self.slot.as_mut()
    }

    /// Decides whether a launch may go ahead. `liveness` is the probe of the
    /// tracked handle and is not consulted when nothing is tracked. A live
    /// handle blocks the launch and stays; an exited one is dropped; a failed
    /// probe is an error and leaves the handle in place.
    pub fn try_claim_running(&mut self, liveness: Liveness) -> (answer: Result<Claim, String>)
        ensures
            final(self)@ == slot_after_probe(old(self)@, liveness),
            final(self).live_handles() <= 1,
            match answer {
                Ok(claim) => claim_answer(old(self)@, liveness) == Ok::<Claim, Seq<char>>(claim),
                Err(text) => claim_answer(old(self)@, liveness) == Err::<Claim, Seq<char>>(text@),
            },
    {
        if self.slot.is_none() {
            return Ok(Claim::ClaimedAbsent);
        }
        match liveness {
            Liveness::Alive => Ok(Claim::AlreadyRunning),
            Liveness::Exited(_) => {
                self.slot = None;
                Ok(Claim::ClaimedAbsent)
            },
            Liveness::ProbeFailed(cause) => Err(probe_failure_message(cause.as_str())),
        }
    }

    /// Stores a newly spawned handle, replacing whatever was tracked.
    pub fn install(&mut self, handle: H)
        ensures
            final(self)@ == Some(handle),
            final(self).live_handles() == 1,
    {
        self.slot = Some(handle);
    }

    /// Removes the tracked handle and gives it to the caller to terminate. The
    /// registry tracks nothing afterwards, whatever becomes of the handle.
    pub fn take(&mut self) -> (handle: Option<H>)
        ensures
            handle == old(self)@,
            final(self)@ is None,
            final(self).live_handles() == 0,
    {
        self.slot.take()
    }

    /// Reports the state of the tracked process. `liveness` is the probe of
    /// the tracked handle and is not consulted when nothing is tracked. An
    /// observed exit is reported and the dead handle dropped.
    pub fn status(&mut self, liveness: Liveness) -> (answer: Result<Status, String>)
        ensures
            final(self)@ == slot_after_probe(old(self)@, liveness),
            final(self).live_handles() <= 1,
            match answer {
                Ok(status) => status_answer(old(self)@, liveness) == Ok::<StatusView, Seq<char>>(
                    status@,
                ),
                Err(text) => status_answer(old(self)@, liveness) == Err::<StatusView, Seq<char>>(
                    text@,
                ),
            },
    {
        if self.slot.is_none() {
            return Ok(Status::Absent);
        }
        match liveness {
            Liveness::Alive => Ok(Status::Running),
            Liveness::Exited(status) => {
                self.slot = None;
                Ok(Status::Exited(status))
            },
            Liveness::ProbeFailed(cause) => Err(probe_failure_message(cause.as_str())),
        }
    }
}

/// Renders a status as the short description shown to the user.
pub fn describe_status(status: &Status) -> (text: String)
    ensures
        text@ == status_text(status@),
{
    match status {
        Status::Running => running_message(),
        Status::Exited(code) => exited_message(code.as_str()),
        Status::Absent => no_process_message(),
    }
}

/// The outcome of a stop once the removed handle, if any, has been killed:
/// `killed` is `None` when nothing was tracked, else what the kill returned.
pub fn stop_outcome(killed: Option<Result<(), String>>) -> (outcome: Result<String, String>)
    ensures
        outcome_view(outcome) == stop_answer(killed),
{
    match killed {
        None => Ok(nothing_to_stop_message()),
        Some(Ok(_)) => Ok(stopped_message()),
        Some(Err(cause)) => Err(kill_failure_message(cause.as_str())),
    }
}

} // verus!
