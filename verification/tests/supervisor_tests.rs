use sidecar_supervisor::health::PollAnswer;
use sidecar_supervisor::paths::Probe;
use sidecar_supervisor::registry::{Claim, Liveness, Registry};
use sidecar_supervisor::supervisor::{
    Action, Event, Operation, Stage, Supervisor, BACKOFF_MS, MAX_ATTEMPTS, MAX_POLLS,
    POLL_INTERVAL_MS, REST_MS, SETTLE_MS,
};

/// A scripted host: a registry of numbered handles and canned results.
struct Host {
    registry: Registry<u32>,
    tracked_is_alive: bool,
    script_exists: bool,
    spawns_succeed_from: u32,
    healthy_from_poll: u32,
    stops: u32,
    kills: u32,
    reaps: u32,
    spawns: u32,
    polls: u32,
    slept_ms: u64,
    answers: u32,
    log: Vec<Action>,
}

impl Host {
    fn new() -> Host {
        Host {
            registry: Registry::new(),
            tracked_is_alive: true,
            script_exists: true,
            spawns_succeed_from: 1,
            healthy_from_poll: 1,
            stops: 0,
            kills: 0,
            reaps: 0,
            spawns: 0,
            polls: 0,
            slept_ms: 0,
            answers: 0,
            log: Vec::new(),
        }
    }

    fn liveness(&self) -> Liveness {
        if self.tracked_is_alive {
            Liveness::Alive
        } else {
            Liveness::Exited("exit status: 0".to_string())
        }
    }

    fn probes(&self) -> Vec<Probe> {
        if self.script_exists {
            vec![Probe::Missing, Probe::Found("/app/sidecar/deno.ts".to_string())]
        } else {
            vec![Probe::Missing, Probe::Missing, Probe::Missing, Probe::Missing]
        }
    }

    fn perform(&mut self, action: &Action) -> Event {
        match action {
            Action::Stop => {
                self.stops += 1;
                if self.registry.take().is_some() {
                    self.kills += 1;
                }
                Event::Completed
            }
            Action::ReapConflicts => {
                self.reaps += 1;
                Event::Completed
            }
            Action::Sleep(ms) => {
                self.slept_ms += ms;
                Event::Completed
            }
            Action::Claim => {
                let liveness = self.liveness();
                Event::Claimed(self.registry.try_claim_running(liveness))
            }
            Action::ProbePaths => Event::Probed(self.probes()),
            Action::Spawn(_) => {
                self.spawns += 1;
                if self.spawns >= self.spawns_succeed_from {
                    Event::Spawned
                } else {
                    Event::SpawnFailed("No such file or directory (os error 2)".to_string())
                }
            }
            Action::Install => {
                self.registry.install(self.spawns);
                self.tracked_is_alive = true;
                Event::Completed
            }
            Action::PollHealth => {
                self.polls += 1;
                if self.polls >= self.healthy_from_poll {
                    Event::Polled(PollAnswer::Responded(200))
                } else if self.polls % 2 == 0 {
                    Event::Polled(PollAnswer::Responded(503))
                } else {
                    Event::Polled(PollAnswer::Unreachable)
                }
            }
            Action::Finish(_) => unreachable!(),
        }
    }

    fn run(&mut self, mut supervisor: Supervisor) -> (Result<String, String>, Supervisor) {
        for _ in 0..1000 {
            let action = supervisor.action();
            self.log.push(supervisor.action());
            if let Action::Finish(outcome) = action {
                assert!(supervisor.is_finished());
                return (outcome, supervisor);
            }
            let event = self.perform(&action);
            supervisor.handle(event);
            self.answers += 1;
        }
        panic!("the supervisor did not finish");
    }

    fn status(&mut self) -> Result<String, String> {
        let liveness = self.liveness();
        self.registry
            .status(liveness)
            .map(|status| sidecar_supervisor::registry::describe_status(&status))
    }
}

#[test]
fn constants_are_as_documented() {
    assert_eq!(MAX_ATTEMPTS, 3);
    assert_eq!(MAX_POLLS, 15);
    assert_eq!(REST_MS, 1000);
    assert_eq!(SETTLE_MS, 500);
    assert_eq!(POLL_INTERVAL_MS, 1000);
    assert_eq!(BACKOFF_MS, 2000);
}

#[test]
fn start_walks_through_its_steps() {
    let mut host = Host::new();
    let (outcome, supervisor) = host.run(Supervisor::start());
    assert_eq!(outcome, Ok("Sidecar started successfully from: /app/sidecar/deno.ts".to_string()));
    assert_eq!(
        host.log,
        vec![
            Action::Claim,
            Action::ReapConflicts,
            Action::Sleep(500),
            Action::ProbePaths,
            Action::Spawn("/app/sidecar/deno.ts".to_string()),
            Action::Install,
            Action::Finish(Ok(
                "Sidecar started successfully from: /app/sidecar/deno.ts".to_string()
            )),
        ]
    );
    assert_eq!(supervisor.operation(), Operation::Start);
    assert_eq!(supervisor.stage(), Stage::Finished);
    assert_eq!(supervisor.polls(), 0);
    assert!(!supervisor.health_confirmed());
    assert!(host.registry.is_tracking());
    assert_eq!(host.status(), Ok("Sidecar is running".to_string()));
}

#[test]
fn second_start_is_already_running_and_spawns_nothing() {
    let mut host = Host::new();
    let (first, _) = host.run(Supervisor::start());
    assert!(first.is_ok());
    assert_eq!(host.spawns, 1);
    host.log.clear();
    let (second, _) = host.run(Supervisor::start());
    assert_eq!(second, Ok("Sidecar already running".to_string()));
    assert_eq!(
        host.log,
        vec![Action::Claim, Action::Finish(Ok("Sidecar already running".to_string()))]
    );
    assert_eq!(host.spawns, 1);
    assert_eq!(host.registry.take(), Some(1));
}

#[test]
fn start_after_external_exit_spawns_afresh() {
    let mut host = Host::new();
    let (first, _) = host.run(Supervisor::start());
    assert!(first.is_ok());
    host.tracked_is_alive = false;
    assert_eq!(host.status(), Ok("Sidecar exited with status: exit status: 0".to_string()));
    assert!(!host.registry.is_tracking());
    assert_eq!(host.status(), Ok("No sidecar process".to_string()));
    let (second, _) = host.run(Supervisor::start());
    assert_eq!(second, Ok("Sidecar started successfully from: /app/sidecar/deno.ts".to_string()));
    assert_eq!(host.spawns, 2);
    assert_eq!(host.registry.take(), Some(2));
}

#[test]
fn start_claims_past_an_exited_handle() {
    let mut host = Host::new();
    host.registry.install(40);
    host.tracked_is_alive = false;
    let (outcome, _) = host.run(Supervisor::start());
    assert!(outcome.is_ok());
    assert_eq!(host.spawns, 1);
    assert_eq!(host.registry.take(), Some(1));
}

#[test]
fn start_surfaces_a_failed_probe() {
    let mut supervisor = Supervisor::start();
    assert_eq!(supervisor.action(), Action::Claim);
    let mut registry: Registry<u32> = Registry::new();
    registry.install(1);
    let claim = registry.try_claim_running(Liveness::ProbeFailed("denied".to_string()));
    supervisor.handle(Event::Claimed(claim));
    assert_eq!(
        supervisor.action(),
        Action::Finish(Err("Failed to check sidecar status: denied".to_string()))
    );
}

#[test]
fn start_reports_a_spawn_failure_with_path_and_hint() {
    let mut host = Host::new();
    host.script_exists = false;
    host.spawns_succeed_from = 2;
    let (outcome, supervisor) = host.run(Supervisor::start());
    assert_eq!(
        outcome,
        Err("Failed to start sidecar at 'src-tauri/sidecar/deno.ts': No such file or directory (os error 2). Make sure Deno is installed and in PATH.".to_string())
    );
    assert_eq!(host.spawns, 1);
    assert_eq!(supervisor.attempts(), 1);
    assert!(!host.registry.is_tracking());
    assert_eq!(host.status(), Ok("No sidecar process".to_string()));
}

#[test]
fn start_surfaces_a_resolution_error_without_spawning() {
    let mut supervisor = Supervisor::start();
    supervisor.handle(Event::Claimed(Ok(Claim::ClaimedAbsent)));
    supervisor.handle(Event::Completed);
    supervisor.handle(Event::Completed);
    assert_eq!(supervisor.action(), Action::ProbePaths);
    supervisor.handle(Event::Probed(vec![Probe::Unresolvable("too many links".to_string())]));
    assert_eq!(
        supervisor.action(),
        Action::Finish(Err("Failed to canonicalize path: too many links".to_string()))
    );
}

#[test]
fn restart_from_any_prior_state_ends_running() {
    for prior in 0..3 {
        let mut host = Host::new();
        if prior >= 1 {
            host.registry.install(77);
        }
        if prior == 2 {
            host.tracked_is_alive = false;
        }
        let (outcome, _) = host.run(Supervisor::restart());
        assert_eq!(
            outcome,
            Ok("Sidecar started successfully from: /app/sidecar/deno.ts".to_string())
        );
        assert_eq!(host.status(), Ok("Sidecar is running".to_string()));
        assert_eq!(host.stops, 1);
        assert_eq!(host.kills, if prior >= 1 { 1 } else { 0 });
        assert_eq!(host.reaps, 2);
        assert_eq!(host.slept_ms, 1500);
        assert_eq!(host.spawns, 1);
        assert_eq!(host.polls, 0);
    }
}

#[test]
fn restart_walks_through_its_steps() {
    let mut host = Host::new();
    let (_, _) = host.run(Supervisor::restart());
    assert_eq!(
        host.log[..7],
        [
            Action::Stop,
            Action::ReapConflicts,
            Action::Sleep(1000),
            Action::Claim,
            Action::ReapConflicts,
            Action::Sleep(500),
            Action::ProbePaths,
        ]
    );
}

#[test]
fn startup_succeeds_at_once_and_polls_until_healthy() {
    let mut host = Host::new();
    host.healthy_from_poll = 4;
    let (outcome, supervisor) = host.run(Supervisor::startup_sequence());
    assert!(outcome.is_ok());
    assert_eq!(supervisor.attempts(), 1);
    assert_eq!(host.spawns, 1);
    assert_eq!(host.polls, 4);
    assert_eq!(supervisor.polls(), 4);
    assert!(supervisor.health_confirmed());
    assert_eq!(host.slept_ms, 1500 + 3 * 1000);
}

#[test]
fn startup_health_is_advisory() {
    let mut host = Host::new();
    host.healthy_from_poll = 1000;
    let (outcome, supervisor) = host.run(Supervisor::startup_sequence());
    assert_eq!(outcome, Ok("Sidecar started successfully from: /app/sidecar/deno.ts".to_string()));
    assert_eq!(host.polls, 15);
    assert_eq!(supervisor.polls(), 15);
    assert!(!supervisor.health_confirmed());
    assert_eq!(host.spawns, 1);
    assert_eq!(host.slept_ms, 1500 + 15 * 1000);
    assert!(host.registry.is_tracking());
}

#[test]
fn startup_retries_a_failed_launch_after_backoff() {
    let mut host = Host::new();
    host.spawns_succeed_from = 3;
    let (outcome, supervisor) = host.run(Supervisor::startup_sequence());
    assert!(outcome.is_ok());
    assert_eq!(supervisor.attempts(), 3);
    assert_eq!(host.spawns, 3);
    assert_eq!(host.stops, 3);
    assert_eq!(host.reaps, 6);
    assert_eq!(host.polls, 1);
    assert_eq!(host.slept_ms, 3 * 1500 + 2 * 2000);
    assert!(host.log.contains(&Action::Sleep(2000)));
}

#[test]
fn startup_gives_up_after_three_attempts() {
    let mut host = Host::new();
    host.spawns_succeed_from = 100;
    let (outcome, supervisor) = host.run(Supervisor::startup_sequence());
    assert_eq!(
        outcome,
        Err("Failed to start sidecar at '/app/sidecar/deno.ts': No such file or directory (os error 2). Make sure Deno is installed and in PATH.".to_string())
    );
    assert_eq!(supervisor.attempts(), 3);
    assert_eq!(host.spawns, 3);
    assert_eq!(host.polls, 0);
    assert_eq!(host.slept_ms, 3 * 1500 + 2 * 2000);
    assert!(!host.registry.is_tracking());
}

#[test]
fn startup_worst_case_delay_is_bounded() {
    let mut host = Host::new();
    host.spawns_succeed_from = 3;
    host.healthy_from_poll = 1000;
    let (_, supervisor) = host.run(Supervisor::startup_sequence());
    assert_eq!(supervisor.attempts(), 3);
    assert_eq!(host.polls, 15);
    assert_eq!(host.slept_ms, 23500);
    assert_eq!(host.answers, 57);
}

#[test]
fn single_launches_are_short() {
    let mut host = Host::new();
    let _ = host.run(Supervisor::start());
    assert_eq!(host.answers, 6);
    assert_eq!(host.slept_ms, 500);
    let mut host = Host::new();
    let _ = host.run(Supervisor::restart());
    assert_eq!(host.answers, 9);
    assert_eq!(host.slept_ms, 1500);
}

#[test]
fn startup_stops_a_tracked_process_first() {
    let mut host = Host::new();
    host.registry.install(500);
    let (outcome, _) = host.run(Supervisor::startup_sequence());
    assert!(outcome.is_ok());
    assert_eq!(host.kills, 1);
    assert_eq!(host.registry.take(), Some(1));
}

#[test]
fn events_that_are_not_due_change_nothing() {
    let mut supervisor = Supervisor::restart();
    assert_eq!(supervisor.stage(), Stage::Stopping);
    supervisor.handle(Event::Spawned);
    supervisor.handle(Event::Polled(PollAnswer::Responded(200)));
    supervisor.handle(Event::Claimed(Ok(Claim::AlreadyRunning)));
    supervisor.handle(Event::Probed(Vec::new()));
    supervisor.handle(Event::SpawnFailed("x".to_string()));
    assert_eq!(supervisor.stage(), Stage::Stopping);
    assert_eq!(supervisor.action(), Action::Stop);
    let mut finished = Supervisor::start();
    finished.handle(Event::Claimed(Ok(Claim::AlreadyRunning)));
    assert!(finished.is_finished());
    finished.handle(Event::Completed);
    finished.handle(Event::Spawned);
    assert_eq!(finished.action(), Action::Finish(Ok("Sidecar already running".to_string())));
}

#[test]
fn new_supervisor_starts_where_its_operation_starts() {
    assert_eq!(Supervisor::new(Operation::Start).action(), Action::Claim);
    assert_eq!(Supervisor::new(Operation::Restart).action(), Action::Stop);
    assert_eq!(Supervisor::new(Operation::Startup).action(), Action::Stop);
    assert_eq!(Supervisor::new(Operation::Startup).attempts(), 1);
}
