//! The health monitor: a bounded number of polls of the sidecar's health
//! endpoint, with a fixed pause after each poll that was not answered with
//! success.
//!
//! Running out of polls is not an error: the monitor is then done, without
//! health confirmed, and the host carries on.

use vstd::prelude::*;

verus! {

/// What one request to the health endpoint brought back.
#[derive(Clone, Copy, Debug, PartialEq, Eq, Structural)]
pub enum PollAnswer {
    /// The endpoint answered with this HTTP status code.
    Responded(u16),
    /// No answer within the request's timeout.
    Unreachable,
}

/// The success class of HTTP status codes.
pub open spec fn success_class(code: u16) -> bool {
    200 <= code < 300
}

/// Whether an answer counts as healthy: any success-class status does.
pub open spec fn healthy_answer(answer: PollAnswer) -> bool {
    match answer {
        PollAnswer::Responded(code) => success_class(code),
        PollAnswer::Unreachable => false,
    }
}

pub fn is_success_status(code: u16) -> (success: bool)
    ensures
        success == success_class(code),
{
    200 <= code && code < 300
}

pub fn is_healthy(answer: PollAnswer) -> (healthy: bool)
    ensures
        healthy == healthy_answer(answer),
{
    match answer {
        PollAnswer::Responded(code) => is_success_status(code),
        PollAnswer::Unreachable => false,
    }
}

/// What the monitor waits for.
#[derive(Clone, Copy, Debug, PartialEq, Eq, Structural)]
pub enum Phase {
    /// The answer to a poll.
    Polling,
    /// The end of the pause after an unsuccessful poll.
    Pausing,
    /// Nothing: health was confirmed or the polls are used up.
    Done,
}

/// What the host is to do for the monitor.
#[derive(Clone, Copy, Debug, PartialEq, Eq, Structural)]
pub enum HealthAction {
    /// Send one request to the health endpoint.
    Poll,
    /// Wait this many milliseconds.
    Pause(u64),
    /// Stop; the flag says whether health was confirmed.
    Done(bool),
}

/// The monitor as a mathematical value.
pub struct HealthView {
    pub max_attempts: nat,
    pub interval_ms: nat,
    /// Polls answered so far.
    pub polls: nat,
    pub phase: Phase,
    pub healthy: bool,
}

impl HealthView {
    pub open spec fn wf(self) -> bool {
        &&& self.polls <= self.max_attempts
        &&& (self.phase is Polling ==> self.polls < self.max_attempts)
        &&& (self.phase is Pausing ==> self.polls >= 1)
    }
}

/// A fresh monitor: about to poll, or done at once when it has no polls.
pub open spec fn fresh_monitor(max_attempts: nat, interval_ms: nat) -> HealthView {
    HealthView {
        max_attempts,
        interval_ms,
        polls: 0,
        phase: if max_attempts == 0 {
            Phase::Done
        } else {
            Phase::Polling
        },
        healthy: false,
    }
}

/// The monitor after a poll was answered: done on a healthy answer, pausing
/// otherwise. Unchanged unless it was waiting for an answer.
pub open spec fn after_poll(h: HealthView, answer: PollAnswer) -> HealthView {
    if !(h.phase is Polling) {
        h
    } else if healthy_answer(answer) {
        HealthView { polls: h.polls + 1, phase: Phase::Done, healthy: true, ..h }
    } else {
        HealthView { polls: h.polls + 1, phase: Phase::Pausing, ..h }
    }
}

/// The monitor after a pause: polling again while polls remain, else done.
/// Unchanged unless it was pausing.
pub open spec fn after_pause(h: HealthView) -> HealthView {
    if !(h.phase is Pausing) {
        h
    } else if h.polls < h.max_attempts {
        HealthView { phase: Phase::Polling, ..h }
    } else {
        HealthView { phase: Phase::Done, ..h }
    }
}

/// What is due for the monitor.
pub open spec fn due(h: HealthView) -> HealthAction {
    match h.phase {
        Phase::Polling => HealthAction::Poll,
        Phase::Pausing => HealthAction::Pause(h.interval_ms as u64),
        Phase::Done => HealthAction::Done(h.healthy),
    }
}

pub struct HealthMonitor {
    max_attempts: u32,
    interval_ms: u64,
    polls: u32,
    phase: Phase,
    healthy: bool,
}

impl View for HealthMonitor {
    type V = HealthView;

    closed spec fn view(&self) -> HealthView {
        HealthView {
            max_attempts: self.max_attempts as nat,
            interval_ms: self.interval_ms as nat,
            polls: self.polls as nat,
            phase: self.phase,
            healthy: self.healthy,
        }
    }
}

impl HealthMonitor {
    /// A monitor that polls at most `max_attempts` times and pauses
    /// `interval_ms` milliseconds after each unsuccessful poll.
    pub fn new(max_attempts: u32, interval_ms: u64) -> (monitor: Self)
        ensures
            monitor@ == fresh_monitor(max_attempts as nat, interval_ms as nat),
            monitor@.wf(),
    {
        let phase = if max_attempts == 0 {
            Phase::Done
        } else {
            Phase::Polling
        };
        HealthMonitor { max_attempts, interval_ms, polls: 0, phase, healthy: false }
    }

    pub fn polls(&self) -> (polls: u32)
        ensures
            polls == self@.polls,
    {
        self.polls
    }

    pub fn is_done(&self) -> (done: bool)
        ensures
            done == (self@.phase is Done),
    {
        match self.phase {
            Phase::Done => true,
            _ => false,
        }
    }

    /// Whether a poll was answered with success.
    pub fn health_confirmed(&self) -> (healthy: bool)
        ensures
            healthy == self@.healthy,
    {
        self.healthy
    }

    /// What is due.
    pub fn action(&self) -> (action: HealthAction)
        ensures
            action == due(self@),
    {
        match self.phase {
            Phase::Polling => HealthAction::Poll,
            Phase::Pausing => HealthAction::Pause(self.interval_ms),
            Phase::Done => HealthAction::Done(self.healthy),
        }
    }

    /// Takes the answer to the poll that was due.
    pub fn poll_answered(&mut self, answer: PollAnswer)
        requires
            old(self)@.wf(),
        ensures
            final(self)@ == after_poll(old(self)@, answer),
            final(self)@.wf(),
    {
        match self.phase {
            Phase::Polling => {
                self.polls = self.polls + 1;
                if is_healthy(answer) {
                    self.healthy = true;
                    self.phase = Phase::Done;
                } else {
                    self.phase = Phase::Pausing;
                }
            },
            _ => {},
        }
    }

    /// Takes the end of the pause that was due.
    pub fn pause_over(&mut self)
        requires
            old(self)@.wf(),
        ensures
            final(self)@ == after_pause(old(self)@),
            final(self)@.wf(),
    {
        match self.phase {
            Phase::Pausing => {
                if self.polls < self.max_attempts {
                    self.phase = Phase::Polling;
                } else {
                    self.phase = Phase::Done;
                }
            },
            _ => {},
        }
    }
}

} // verus!
