use rust_zola::supervisor::{
    run_probes, status_is_ready, ProbeResult, ProbeStep, StartupOutcome, Supervisor,
    MAX_PROBE_ATTEMPTS, PROBE_RETRY_DELAY_SECONDS, STARTUP_GRACE_SECONDS,
};

#[test]
fn ready_statuses() {
    assert!(status_is_ready(200));
    assert!(status_is_ready(204));
    assert!(status_is_ready(299));
    assert!(status_is_ready(404));
    assert!(!status_is_ready(199));
    assert!(!status_is_ready(300));
    assert!(!status_is_ready(403));
    assert!(!status_is_ready(500));
}

#[test]
fn ready_after_failures_within_cap() {
    let mut events = vec![ProbeResult::Unreachable; 3];
    events.push(ProbeResult::Status(200));
    assert_eq!(run_probes(&events), StartupOutcome::Ready);
}

#[test]
fn not_found_counts_as_ready() {
    let events = vec![ProbeResult::Status(404)];
    assert_eq!(run_probes(&events), StartupOutcome::Ready);
}

#[test]
fn ready_on_last_allowed_attempt() {
    let mut events = vec![ProbeResult::Unreachable; 9];
    events.push(ProbeResult::Status(204));
    assert_eq!(run_probes(&events), StartupOutcome::Ready);
}

#[test]
fn gives_up_after_attempt_cap() {
    let events = vec![ProbeResult::Unreachable; 10];
    assert_eq!(run_probes(&events), StartupOutcome::Failed);
}

#[test]
fn failure_sticks_whatever_comes_later() {
    let mut events = vec![ProbeResult::Unreachable; 10];
    events.push(ProbeResult::Status(200));
    assert_eq!(run_probes(&events), StartupOutcome::Failed);
}

#[test]
fn non_ready_status_spends_no_attempt() {
    let mut events = vec![ProbeResult::Status(500); 20];
    events.push(ProbeResult::Status(200));
    assert_eq!(run_probes(&events), StartupOutcome::Ready);
}

#[test]
fn pending_when_probes_run_out() {
    let events = vec![ProbeResult::Unreachable; 2];
    assert_eq!(run_probes(&events), StartupOutcome::Pending);
}

#[test]
fn step_by_step_drive() {
    let mut sup = Supervisor::new();
    assert_eq!(sup.attempts, 0);
    assert_eq!(sup.step(ProbeResult::Unreachable), ProbeStep::RetryAfterDelay);
    assert_eq!(sup.attempts, 1);
    assert_eq!(sup.step(ProbeResult::Status(500)), ProbeStep::ProbeAgain);
    assert_eq!(sup.attempts, 1);
    assert_eq!(sup.step(ProbeResult::Status(200)), ProbeStep::Ready);
    assert_eq!(sup.attempts, 1);
}

#[test]
fn step_gives_up_exactly_at_cap() {
    let mut sup = Supervisor::new();
    for _ in 0..MAX_PROBE_ATTEMPTS - 1 {
        assert_eq!(sup.step(ProbeResult::Unreachable), ProbeStep::RetryAfterDelay);
    }
    assert_eq!(sup.step(ProbeResult::Unreachable), ProbeStep::GiveUp);
    assert_eq!(sup.attempts, MAX_PROBE_ATTEMPTS);
}

#[test]
fn startup_timing_constants() {
    assert_eq!(MAX_PROBE_ATTEMPTS, 10);
    assert_eq!(STARTUP_GRACE_SECONDS, 1);
    assert_eq!(PROBE_RETRY_DELAY_SECONDS, 2);
}
