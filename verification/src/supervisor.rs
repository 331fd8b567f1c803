//! The supervisor: which step of a start, a restart or the startup sequence
//! comes next.
//!
//! A `Supervisor` never acts. It names the action that is due; the host performs
//! it, outside any lock, and reports the result as an `Event`. An event that
//! does not answer the action that is due changes nothing.

use vstd::prelude::*;
use vstd::string::*;
use crate::health::{
    after_pause, after_poll, due, fresh_monitor, HealthAction, HealthMonitor, HealthView,
    PollAnswer,
};
use crate::messages::{
    already_running_message, already_running_text, outcome_view, spawn_failure_message,
    spawn_failure_text, started_message, started_text,
};
use crate::paths::{candidate_texts, find_sidecar_script, resolution, Probe};
use crate::registry::Claim;

verus! {

/// Outer attempts of the startup sequence.
pub const MAX_ATTEMPTS: u32 = 3;

/// Health polls after a successful launch.
pub const MAX_POLLS: u32 = 15;

/// Delay between the cleanup of a restart and the launch, in milliseconds.
pub const REST_MS: u64 = 1000;

/// Delay that lets reaped processes terminate before a spawn, in milliseconds.
pub const SETTLE_MS: u64 = 500;

/// Delay after an unsuccessful health poll, in milliseconds.
pub const POLL_INTERVAL_MS: u64 = 1000;

/// Delay before the next outer attempt, in milliseconds.
pub const BACKOFF_MS: u64 = 2000;

/// What the supervisor was asked to carry out.
#[derive(Clone, Copy, Debug, PartialEq, Eq, Structural)]
pub enum Operation {
    /// One launch: no cleanup of the tracked process, no retry, no health wait.
    Start,
    /// Stop, reap, rest, then one launch.
    Restart,
    /// Restart up to `MAX_ATTEMPTS` times, then wait for health.
    Startup,
}

/// Where in its operation the supervisor stands; each stage waits for the
/// result of one action.
#[derive(Clone, Copy, Debug, PartialEq, Eq, Structural)]
pub enum Stage {
    Stopping,
    Clearing,
    Resting,
    Claiming,
    Reaping,
    Settling,
    Resolving,
    Spawning,
    Installing,
    Checking,
    BackingOff,
    Finished,
}

/// What the host reports back.
#[derive(Debug, PartialEq, Eq)]
pub enum Event {
    /// A stop, a reap, a sleep or an install is over (a stop's result is ignored).
    Completed,
    /// The registry's answer to a claim.
    Claimed(Result<Claim, String>),
    /// One probe per candidate path, in priority order.
    Probed(Vec<Probe>),
    /// The runtime was spawned; the host holds the new handle.
    Spawned,
    /// The operating system refused the spawn; the text is its error.
    SpawnFailed(String),
    /// The health endpoint's answer to one request.
    Polled(PollAnswer),
}

/// What the host is to do next.
#[derive(Debug, PartialEq, Eq)]
pub enum Action {
    /// Take the tracked handle out of the registry and kill it.
    Stop,
    /// Terminate stray instances of the runtime, ignoring failures.
    ReapConflicts,
    /// Wait this many milliseconds.
    Sleep(u64),
    /// Probe the tracked handle and ask the registry for a claim.
    Claim,
    /// Probe the candidate paths.
    ProbePaths,
    /// Spawn the runtime on this script path, all streams suppressed.
    Spawn(String),
    /// Hand the spawned handle to the registry.
    Install,
    /// Send one request to the health endpoint.
    PollHealth,
    /// Nothing is left to do; this is the operation's outcome.
    Finish(Result<String, String>),
}

/// An action as a mathematical value.
pub enum ActionView {
    Stop,
    ReapConflicts,
    Sleep(nat),
    Claim,
    ProbePaths,
    Spawn(Seq<char>),
    Install,
    PollHealth,
    Finish(Result<Seq<char>, Seq<char>>),
}

impl View for Action {
    type V = ActionView;

    open spec fn view(&self) -> ActionView {
        match *self {
            Action::Stop => ActionView::Stop,
            Action::ReapConflicts => ActionView::ReapConflicts,
            Action::Sleep(ms) => ActionView::Sleep(ms as nat),
            Action::Claim => ActionView::Claim,
            Action::ProbePaths => ActionView::ProbePaths,
            Action::Spawn(path) => ActionView::Spawn(path@),
            Action::Install => ActionView::Install,
            Action::PollHealth => ActionView::PollHealth,
            Action::Finish(outcome) => ActionView::Finish(outcome_view(outcome)),
        }
    }
}

/// The supervisor as a mathematical value.
pub struct SupervisorView {
    pub operation: Operation,
    pub stage: Stage,
    /// Outer attempts begun, this one included.
    pub attempts: nat,
    /// The health monitor of the latest launch.
    pub monitor: HealthView,
    /// The resolved script path, once resolution succeeded.
    pub path: Seq<char>,
    /// The result of the latest launch.
    pub outcome: Result<Seq<char>, Seq<char>>,
}

impl SupervisorView {
    pub open spec fn wf(self) -> bool {
        &&& 1 <= self.attempts <= MAX_ATTEMPTS
        &&& self.monitor.wf()
        &&& self.monitor.max_attempts == MAX_POLLS
        &&& self.monitor.interval_ms == POLL_INTERVAL_MS
        &&& (self.stage is Checking ==> self.operation is Startup && !(self.monitor.phase is Done))
        &&& (self.stage is BackingOff ==> self.operation is Startup && self.attempts
            < MAX_ATTEMPTS)
    }

    /// The same supervisor at another stage.
    pub open spec fn at(self, stage: Stage) -> SupervisorView {
        SupervisorView { stage, ..self }
    }

    /// The same supervisor with its monitor moved on to `monitor`: over once
    /// the monitor is done.
    pub open spec fn checked(self, monitor: HealthView) -> SupervisorView {
        SupervisorView {
            stage: if monitor.phase is Done {
                Stage::Finished
            } else {
                Stage::Checking
            },
            monitor,
            ..self
        }
    }
}

/// The monitor of the startup sequence, before its first poll.
pub open spec fn standard_monitor() -> HealthView {
    fresh_monitor(MAX_POLLS as nat, POLL_INTERVAL_MS as nat)
}

/// The supervisor at the start of `operation`.
pub open spec fn initial(operation: Operation) -> SupervisorView {
    SupervisorView {
        operation,
        stage: if operation is Start {
            Stage::Claiming
        } else {
            Stage::Stopping
        },
        attempts: 1,
        monitor: standard_monitor(),
        path: Seq::empty(),
        outcome: Ok(Seq::empty()),
    }
}

/// After a launch that succeeded with `text`: the startup sequence goes on to
/// the health polls, a start or restart is over.
pub open spec fn launched(v: SupervisorView, text: Seq<char>) -> SupervisorView {
    if v.operation is Startup {
        SupervisorView {
            stage: Stage::Checking,
            monitor: standard_monitor(),
            outcome: Ok(text),
            ..v
        }
    } else {
        SupervisorView { stage: Stage::Finished, outcome: Ok(text), ..v }
    }
}

/// After a launch that failed with `text`: the startup sequence backs off while
/// attempts remain, anything else is over.
pub open spec fn failed(v: SupervisorView, text: Seq<char>) -> SupervisorView {
    if v.operation is Startup && v.attempts < MAX_ATTEMPTS {
        SupervisorView { stage: Stage::BackingOff, outcome: Err(text), ..v }
    } else {
        SupervisorView { stage: Stage::Finished, outcome: Err(text), ..v }
    }
}

/// The supervisor after `event`.
pub open spec fn next(v: SupervisorView, event: Event) -> SupervisorView {
    match (v.stage, event) {
        (Stage::Stopping, Event::Completed) => v.at(Stage::Clearing),
        (Stage::Clearing, Event::Completed) => v.at(Stage::Resting),
        (Stage::Resting, Event::Completed) => v.at(Stage::Claiming),
        (Stage::Claiming, Event::Claimed(Ok(Claim::AlreadyRunning))) => launched(
            v,
            already_running_text(),
        ),
        (Stage::Claiming, Event::Claimed(Ok(Claim::ClaimedAbsent))) => v.at(Stage::Reaping),
        (Stage::Claiming, Event::Claimed(Err(text))) => failed(v, text@),
        (Stage::Reaping, Event::Completed) => v.at(Stage::Settling),
        (Stage::Settling, Event::Completed) => v.at(Stage::Resolving),
        (Stage::Resolving, Event::Probed(probes)) => match resolution(
            candidate_texts(),
            probes@,
        ) {
            Ok(path) => SupervisorView { stage: Stage::Spawning, path, ..v },
            Err(text) => failed(v, text),
        },
        (Stage::Spawning, Event::Spawned) => v.at(Stage::Installing),
        (Stage::Spawning, Event::SpawnFailed(cause)) => failed(
            v,
            spawn_failure_text(v.path, cause@),
        ),
        (Stage::Installing, Event::Completed) => launched(v, started_text(v.path)),
        (Stage::Checking, Event::Polled(answer)) => v.checked(after_poll(v.monitor, answer)),
        (Stage::Checking, Event::Completed) => v.checked(after_pause(v.monitor)),
        (Stage::BackingOff, Event::Completed) => SupervisorView {
            stage: Stage::Stopping,
            attempts: v.attempts + 1,
            ..v
        },
        _ => v,
    }
}

/// The action that is due.
pub open spec fn pending(v: SupervisorView) -> ActionView {
    match v.stage {
        Stage::Stopping => ActionView::Stop,
        Stage::Clearing => ActionView::ReapConflicts,
        Stage::Resting => ActionView::Sleep(REST_MS as nat),
        Stage::Claiming => ActionView::Claim,
        Stage::Reaping => ActionView::ReapConflicts,
        Stage::Settling => ActionView::Sleep(SETTLE_MS as nat),
        Stage::Resolving => ActionView::ProbePaths,
        Stage::Spawning => ActionView::Spawn(v.path),
        Stage::Installing => ActionView::Install,
        Stage::Checking => match due(v.monitor) {
            HealthAction::Poll => ActionView::PollHealth,
            HealthAction::Pause(ms) => ActionView::Sleep(ms as nat),
            HealthAction::Done(_) => ActionView::Finish(v.outcome),
        },
        Stage::BackingOff => ActionView::Sleep(BACKOFF_MS as nat),
        Stage::Finished => ActionView::Finish(v.outcome),
    }
}

pub struct Supervisor {
    operation: Operation,
    stage: Stage,
    attempts: u32,
    monitor: HealthMonitor,
    path: String,
    outcome: Result<String, String>,
}

impl View for Supervisor {
    type V = SupervisorView;

    closed spec fn view(&self) -> SupervisorView {
        SupervisorView {
            operation: self.operation,
            stage: self.stage,
            attempts: self.attempts as nat,
            monitor: self.monitor@,
            path: self.path@,
            outcome: outcome_view(self.outcome),
        }
    }
}

impl Supervisor {
    /// A supervisor at the start of `operation`.
    pub fn new(operation: Operation) -> (supervisor: Self)
        ensures
            supervisor@ == initial(operation),
            supervisor@.wf(),
    {
        let stage = match operation {
            Operation::Start => Stage::Claiming,
            _ => Stage::Stopping,
        };
        Supervisor {
            operation,
            stage,
            attempts: 1,
            monitor: HealthMonitor::new(MAX_POLLS, POLL_INTERVAL_MS),
            path: String::new(),
            outcome: Ok(String::new()),
        }
    }

    /// A single launch.
    pub fn start() -> (supervisor: Self)
        ensures
            supervisor@ == initial(Operation::Start),
            supervisor@.wf(),
    {
        Supervisor::new(Operation::Start)
    }

    /// Cleanup, then a single launch.
    pub fn restart() -> (supervisor: Self)
        ensures
            supervisor@ == initial(Operation::Restart),
            supervisor@.wf(),
    {
        Supervisor::new(Operation::Restart)
    }

    /// The startup sequence run when the host starts.
    pub fn startup_sequence() -> (supervisor: Self)
        ensures
            supervisor@ == initial(Operation::Startup),
            supervisor@.wf(),
    {
        Supervisor::new(Operation::Startup)
    }

    pub fn operation(&self) -> (operation: Operation)
        ensures
            operation == self@.operation,
    {
        self.operation
    }

    pub fn stage(&self) -> (stage: Stage)
        ensures
            stage == self@.stage,
    {
        self.stage
    }

    pub fn attempts(&self) -> (attempts: u32)
        ensures
            attempts == self@.attempts,
    {
        self.attempts
    }

    /// Health polls answered since the latest launch.
    pub fn polls(&self) -> (polls: u32)
        ensures
            polls == self@.monitor.polls,
    {
        self.monitor.polls()
    }

    pub fn is_finished(&self) -> (finished: bool)
        ensures
            finished == (self@.stage is Finished),
    {
        match self.stage {
            Stage::Finished => true,
            _ => false,
        }
    }

    /// Whether the health endpoint answered a poll with success.
    pub fn health_confirmed(&self) -> (healthy: bool)
        ensures
            healthy == self@.monitor.healthy,
    {
        self.monitor.health_confirmed()
    }

    /// The action that is due.
    pub fn action(&self) -> (action: Action)
        ensures
            action@ == pending(self@),
    {
        match self.stage {
            Stage::Stopping => Action::Stop,
            Stage::Clearing => Action::ReapConflicts,
            Stage::Resting => Action::Sleep(REST_MS),
            Stage::Claiming => Action::Claim,
            Stage::Reaping => Action::ReapConflicts,
            Stage::Settling => Action::Sleep(SETTLE_MS),
            Stage::Resolving => Action::ProbePaths,
            Stage::Spawning => Action::Spawn(self.path.clone()),
            Stage::Installing => Action::Install,
            Stage::Checking => match self.monitor.action() {
                HealthAction::Poll => Action::PollHealth,
                HealthAction::Pause(ms) => Action::Sleep(ms),
                HealthAction::Done(_) => self.finish(),
            },
            Stage::BackingOff => Action::Sleep(BACKOFF_MS),
            Stage::Finished => self.finish(),
        }
    }

    fn finish(&self) -> (action: Action)
        ensures
            action@ == ActionView::Finish(self@.outcome),
    {
        match &self.outcome {
            Ok(text) => Action::Finish(Ok(text.clone())),
            Err(text) => Action::Finish(Err(text.clone())),
        }
    }

    fn monitor_moved(&mut self)
        ensures
            final(self)@ == old(self)@.checked(old(self)@.monitor),
    {
        if self.monitor.is_done() {
            self.stage = Stage::Finished;
        } else {
            self.stage = Stage::Checking;
        }
    }

    fn launch_succeeded(&mut self, text: String)
        requires
            old(self)@.wf(),
        ensures
            final(self)@ == launched(old(self)@, text@),
            final(self)@.wf(),
    {
        self.outcome = Ok(text);
        match self.operation {
            Operation::Startup => {
                self.monitor = HealthMonitor::new(MAX_POLLS, POLL_INTERVAL_MS);
                self.stage = Stage::Checking;
            },
            _ => {
                self.stage = Stage::Finished;
            },
        }
    }

    fn launch_failed(&mut self, text: String)
        requires
            old(self)@.wf(),
        ensures
            final(self)@ == failed(old(self)@, text@),
            final(self)@.wf(),
    {
        self.outcome = Err(text);
        let retry = match self.operation {
            Operation::Startup => self.attempts < MAX_ATTEMPTS,
            _ => false,
        };
        if retry {
            self.stage = Stage::BackingOff;
        } else {
            self.stage = Stage::Finished;
        }
    }

    /// Takes the host's report. An event that answers the action that is due
    /// moves the supervisor on; any other leaves it as it was.
    pub fn handle(&mut self, event: Event)
        requires
            old(self)@.wf(),
        ensures
            final(self)@ == next(old(self)@, event),
            final(self)@.wf(),
    {
        match self.stage {
            Stage::Stopping => {
                if let Event::Completed = event {
                    self.stage = Stage::Clearing;
                }
            },
            Stage::Clearing => {
                if let Event::Completed = event {
                    self.stage = Stage::Resting;
                }
            },
            Stage::Resting => {
                if let Event::Completed = event {
                    self.stage = Stage::Claiming;
                }
            },
            Stage::Claiming => {
                match event {
                    Event::Claimed(Ok(Claim::AlreadyRunning)) => {
                        self.launch_succeeded(already_running_message());
                    },
                    Event::Claimed(Ok(Claim::ClaimedAbsent)) => {
                        self.stage = Stage::Reaping;
                    },
                    Event::Claimed(Err(text)) => {
                        self.launch_failed(text);
                    },
                    _ => {},
                }
            },
            Stage::Reaping => {
                if let Event::Completed = event {
                    self.stage = Stage::Settling;
                }
            },
            Stage::Settling => {
                if let Event::Completed = event {
                    self.stage = Stage::Resolving;
                }
            },
            Stage::Resolving => {
                if let Event::Probed(probes) = event {
                    match find_sidecar_script(&probes) {
                        Ok(path) => {
                            self.path = path;
                            self.stage = Stage::Spawning;
                        },
                        Err(text) => {
                            self.launch_failed(text);
                        },
                    }
                }
            },
            Stage::Spawning => {
                match event {
                    Event::Spawned => {
                        self.stage = Stage::Installing;
                    },
                    Event::SpawnFailed(cause) => {
                        let text = spawn_failure_message(self.path.as_str(), cause.as_str());
                        self.launch_failed(text);
                    },
                    _ => {},
                }
            },
            Stage::Installing => {
                if let Event::Completed = event {
                    let text = started_message(self.path.as_str());
                    self.launch_succeeded(text);
                }
            },
            Stage::Checking => {
                match event {
                    Event::Polled(answer) => {
                        self.monitor.poll_answered(answer);
                        self.monitor_moved();
                    },
                    Event::Completed => {
                        self.monitor.pause_over();
                        self.monitor_moved();
                    },
                    _ => {},
                }
            },
            Stage::BackingOff => {
                if let Event::Completed = event {
                    self.attempts = self.attempts + 1;
                    self.stage = Stage::Stopping;
                }
            },
            Stage::Finished => {},
        }
    }
}

} // verus!
