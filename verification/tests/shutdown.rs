use launcher::config::ShutdownConfig;
use launcher::shutdown::Phase;
use launcher::shutdown::ShutdownAction;
use launcher::shutdown::ShutdownEvent;
use launcher::shutdown::ShutdownSession;
use launcher::shutdown::describe_phase;
use launcher::supervisor::ProcessStatus;

fn small_session(health_attempts: u64, exit_attempts: u64) -> ShutdownSession {
    ShutdownSession::new(ShutdownConfig::new(500, health_attempts, exit_attempts, 1000))
}

#[test]
fn a_session_starts_by_awaiting_readiness() {
    let s = small_session(3, 2);
    assert_eq!(s.phase, Phase::AwaitingReady);
    assert_eq!(s.health_polls, 0);
    assert_eq!(s.exit_polls, 0);
    assert_eq!(s.next_action(), ShutdownAction::PollHealth);
    assert!(!s.is_done());
}

#[test]
fn each_phase_asks_for_its_own_effect() {
    let mut s = small_session(1, 1);
    assert_eq!(s.next_action(), ShutdownAction::PollHealth);
    s.step(ShutdownEvent::HealthChecked(true));
    assert_eq!(s.next_action(), ShutdownAction::SendShutdownRequest);
    s.step(ShutdownEvent::ShutdownRequested(true));
    assert_eq!(s.next_action(), ShutdownAction::PollStatus);
    s.step(ShutdownEvent::StatusPolled(ProcessStatus::Running));
    assert_eq!(s.next_action(), ShutdownAction::ForceStop);
    s.step(ShutdownEvent::WorkerStopped);
    assert_eq!(s.next_action(), ShutdownAction::ExitHost);
    assert!(s.is_done());
}

#[test]
fn one_positive_health_poll_proceeds_to_the_request() {
    let mut s = small_session(30, 20);
    s.step(ShutdownEvent::HealthChecked(false));
    assert_eq!(s.phase, Phase::AwaitingReady);
    assert_eq!(s.health_polls, 1);
    s.step(ShutdownEvent::HealthChecked(true));
    assert_eq!(s.phase, Phase::RequestingShutdown);
}

#[test]
fn an_unready_worker_exhausts_the_health_budget_and_proceeds_anyway() {
    let mut s = small_session(3, 2);
    s.step(ShutdownEvent::HealthChecked(false));
    s.step(ShutdownEvent::HealthChecked(false));
    assert_eq!(s.phase, Phase::AwaitingReady);
    s.step(ShutdownEvent::HealthChecked(false));
    // The health wait is advisory: after the budget the request is issued
    // regardless.
    assert_eq!(s.phase, Phase::RequestingShutdown);
    assert_eq!(s.health_polls, 3);
}

#[test]
fn a_clean_exit_within_budget_never_forces() {
    let mut s = small_session(2, 20);
    s.step(ShutdownEvent::HealthChecked(true));
    s.step(ShutdownEvent::ShutdownRequested(true));
    assert_eq!(s.phase, Phase::AwaitingExit);
    let mut forced = false;
    for _ in 0..5 {
        s.step(ShutdownEvent::StatusPolled(ProcessStatus::Running));
        forced = forced || s.phase == Phase::ForcingExit;
    }
    // The worker exits on its own well within the twenty-poll budget: the
    // sequence completes without ever entering ForcingExit.
    s.step(ShutdownEvent::StatusPolled(ProcessStatus::Failed));
    forced = forced || s.phase == Phase::ForcingExit;
    assert!(!forced);
    assert_eq!(s.phase, Phase::Done);
}

#[test]
fn a_gone_worker_completes_the_exit_wait_at_once() {
    let mut s = small_session(1, 20);
    s.step(ShutdownEvent::HealthChecked(true));
    s.step(ShutdownEvent::ShutdownRequested(true));
    s.step(ShutdownEvent::StatusPolled(ProcessStatus::NotRunning));
    assert_eq!(s.phase, Phase::Done);
    assert_eq!(s.exit_polls, 0);
}

#[test]
fn a_failed_request_skips_straight_to_forced_termination() {
    let mut s = small_session(1, 20);
    s.step(ShutdownEvent::HealthChecked(true));
    // The remote call failed outright (for example, connection refused):
    // the exit wait is skipped entirely.
    s.step(ShutdownEvent::ShutdownRequested(false));
    assert_eq!(s.phase, Phase::ForcingExit);
    assert_eq!(s.exit_polls, 0);
    s.step(ShutdownEvent::WorkerStopped);
    assert_eq!(s.phase, Phase::Done);
}

#[test]
fn an_exhausted_exit_wait_escalates_to_forced_termination() {
    let mut s = small_session(1, 2);
    s.step(ShutdownEvent::HealthChecked(true));
    s.step(ShutdownEvent::ShutdownRequested(true));
    s.step(ShutdownEvent::StatusPolled(ProcessStatus::Running));
    assert_eq!(s.phase, Phase::AwaitingExit);
    s.step(ShutdownEvent::StatusPolled(ProcessStatus::Running));
    assert_eq!(s.phase, Phase::ForcingExit);
    assert_eq!(s.exit_polls, 2);
    s.step(ShutdownEvent::WorkerStopped);
    assert_eq!(s.phase, Phase::Done);
}

#[test]
fn the_worst_case_sequence_terminates_within_its_budgets() {
    // The worker never answers a health check, acknowledges the request,
    // then never exits: the longest possible sequence.
    let health_attempts = 3u64;
    let exit_attempts = 2u64;
    let mut s = small_session(health_attempts, exit_attempts);
    let mut events = 0u64;
    while !s.is_done() {
        let event = match s.next_action() {
            ShutdownAction::PollHealth => ShutdownEvent::HealthChecked(false),
            ShutdownAction::SendShutdownRequest => ShutdownEvent::ShutdownRequested(true),
            ShutdownAction::PollStatus => ShutdownEvent::StatusPolled(ProcessStatus::Running),
            ShutdownAction::ForceStop => ShutdownEvent::WorkerStopped,
            ShutdownAction::ExitHost => unreachable!(),
        };
        s.step(event);
        events += 1;
        assert!(events <= health_attempts + exit_attempts + 2);
    }
    assert_eq!(events, health_attempts + exit_attempts + 2);
    assert_eq!(s.next_action(), ShutdownAction::ExitHost);
}

#[test]
fn progress_messages_name_each_phase() {
    assert_eq!(
        describe_phase(Phase::AwaitingReady),
        "waiting for the worker to become ready...\n"
    );
    assert_eq!(
        describe_phase(Phase::RequestingShutdown),
        "requesting a clean worker shutdown...\n"
    );
    assert_eq!(
        describe_phase(Phase::AwaitingExit),
        "shutdown requested, waiting for the worker to exit...\n"
    );
    assert_eq!(
        describe_phase(Phase::ForcingExit),
        "terminating the worker forcibly...\n"
    );
    assert_eq!(
        describe_phase(Phase::Done),
        "shutdown sequence finished, exiting...\n"
    );
}

#[test]
fn the_standard_timing_matches_the_design() {
    let c = ShutdownConfig::standard();
    assert_eq!(c.poll_interval_ms, 500);
    assert_eq!(c.health_attempts, 30);
    assert_eq!(c.exit_attempts, 20);
    assert_eq!(c.request_timeout_ms, 5000);
}
