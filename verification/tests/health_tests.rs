use sidecar_supervisor::health::{is_healthy, is_success_status, HealthAction, HealthMonitor, PollAnswer};

#[test]
fn success_class_is_200_to_299() {
    assert!(!is_success_status(199));
    assert!(is_success_status(200));
    assert!(is_success_status(204));
    assert!(is_success_status(299));
    assert!(!is_success_status(300));
    assert!(!is_success_status(404));
    assert!(!is_success_status(503));
}

#[test]
fn only_a_success_answer_is_healthy() {
    assert!(is_healthy(PollAnswer::Responded(200)));
    assert!(!is_healthy(PollAnswer::Responded(500)));
    assert!(!is_healthy(PollAnswer::Unreachable));
}

#[test]
fn monitor_stops_at_the_first_healthy_answer() {
    let mut monitor = HealthMonitor::new(5, 20);
    assert_eq!(monitor.action(), HealthAction::Poll);
    monitor.poll_answered(PollAnswer::Unreachable);
    assert_eq!(monitor.action(), HealthAction::Pause(20));
    monitor.pause_over();
    assert_eq!(monitor.action(), HealthAction::Poll);
    monitor.poll_answered(PollAnswer::Responded(200));
    assert_eq!(monitor.action(), HealthAction::Done(true));
    assert!(monitor.is_done());
    assert!(monitor.health_confirmed());
    assert_eq!(monitor.polls(), 2);
}

#[test]
fn monitor_gives_up_softly_when_polls_are_used_up() {
    let mut monitor = HealthMonitor::new(3, 10);
    let mut polls = 0;
    let mut paused_ms = 0;
    loop {
        match monitor.action() {
            HealthAction::Poll => {
                polls += 1;
                monitor.poll_answered(PollAnswer::Responded(503));
            }
            HealthAction::Pause(ms) => {
                paused_ms += ms;
                monitor.pause_over();
            }
            HealthAction::Done(healthy) => {
                assert!(!healthy);
                break;
            }
        }
    }
    assert_eq!(polls, 3);
    assert_eq!(paused_ms, 30);
    assert_eq!(monitor.polls(), 3);
    assert!(!monitor.health_confirmed());
}

#[test]
fn monitor_without_polls_is_done_at_once() {
    let monitor = HealthMonitor::new(0, 10);
    assert_eq!(monitor.action(), HealthAction::Done(false));
    assert!(monitor.is_done());
}

#[test]
fn monitor_ignores_what_is_not_due() {
    let mut monitor = HealthMonitor::new(2, 10);
    monitor.pause_over();
    assert_eq!(monitor.action(), HealthAction::Poll);
    assert_eq!(monitor.polls(), 0);
    monitor.poll_answered(PollAnswer::Unreachable);
    monitor.poll_answered(PollAnswer::Responded(200));
    assert_eq!(monitor.action(), HealthAction::Pause(10));
    assert_eq!(monitor.polls(), 1);
    assert!(!monitor.health_confirmed());
}
