use oni_sidecar::poll::{
    PollVerdict, ProbeOutcome, ReadinessPoll, MAX_POLL_ATTEMPTS, POLL_INTERVAL_MS,
    READY_TIMEOUT_MS,
};

#[test]
fn immediate_success_takes_one_cycle() {
    let mut p = ReadinessPoll::new();
    assert_eq!(p.step(ProbeOutcome::Success), PollVerdict::Ready);
    assert_eq!(p.attempts, 1);
    assert_eq!(p.attempts * POLL_INTERVAL_MS, 300);
}

#[test]
fn never_ready_times_out_at_budget() {
    let mut p = ReadinessPoll::new();
    let mut made: u64 = 0;
    while made + 1 < MAX_POLL_ATTEMPTS {
        assert_eq!(p.step(ProbeOutcome::NotReady), PollVerdict::Retry);
        made += 1;
    }
    assert_eq!(p.step(ProbeOutcome::NotReady), PollVerdict::TimedOut);
    assert_eq!(p.attempts, MAX_POLL_ATTEMPTS);
    assert_eq!(p.attempts * POLL_INTERVAL_MS, READY_TIMEOUT_MS);
    assert_eq!(p.attempts * POLL_INTERVAL_MS, 15000);
}

#[test]
fn success_after_some_failures_is_ready() {
    let mut p = ReadinessPoll::new();
    assert_eq!(p.step(ProbeOutcome::NotReady), PollVerdict::Retry);
    assert_eq!(p.step(ProbeOutcome::NotReady), PollVerdict::Retry);
    assert_eq!(p.step(ProbeOutcome::NotReady), PollVerdict::Retry);
    assert_eq!(p.step(ProbeOutcome::Success), PollVerdict::Ready);
    assert_eq!(p.attempts, 4);
}

#[test]
fn budget_constants_agree() {
    assert_eq!(POLL_INTERVAL_MS, 300);
    assert_eq!(READY_TIMEOUT_MS, 15000);
    assert_eq!(MAX_POLL_ATTEMPTS, 50);
}
