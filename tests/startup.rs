use chitchats::startup::{step, Action, Event, Phase, MAX_HEALTH_ATTEMPTS, POLL_INTERVAL_MS};

#[test]
fn setup_needed_reveals_at_once() {
    assert_eq!(
        step(Phase::Idle, Event::Launch { setup_needed: true }),
        (Phase::Complete, Action::RevealWindow)
    );
}

#[test]
fn normal_launch_starts_backend() {
    assert_eq!(
        step(Phase::Idle, Event::Launch { setup_needed: false }),
        (Phase::Starting, Action::StartBackend)
    );
}

#[test]
fn failed_start_does_not_poll() {
    assert_eq!(
        step(Phase::Starting, Event::StartFinished { ok: false }),
        (Phase::Failed, Action::ReportStartFailure)
    );
}

#[test]
fn unhealthy_backend_times_out_after_thirty_probes() {
    let (mut phase, mut action) = step(Phase::Starting, Event::StartFinished { ok: true });
    let mut probes = 0u32;
    let mut waited = 0u64;
    while let Action::Probe { delay_ms } = action {
        probes += 1;
        waited += delay_ms;
        let next = step(phase, Event::ProbeFinished { healthy: false });
        phase = next.0;
        action = next.1;
        assert_ne!(action, Action::RevealWindow);
    }
    assert_eq!(probes, 30);
    assert_eq!(probes, MAX_HEALTH_ATTEMPTS);
    assert_eq!(waited, 29 * POLL_INTERVAL_MS);
    assert_eq!(POLL_INTERVAL_MS, 500);
    assert_eq!(action, Action::ReportTimeout);
    assert_eq!(phase, Phase::TimedOut);
    assert_eq!(step(phase, Event::ProbeFinished { healthy: true }), (Phase::TimedOut, Action::Nothing));
}

#[test]
fn healthy_probe_reveals_window() {
    let (phase, action) = step(Phase::Starting, Event::StartFinished { ok: true });
    assert_eq!(action, Action::Probe { delay_ms: 0 });
    let (phase, action) = step(phase, Event::ProbeFinished { healthy: false });
    assert_eq!(action, Action::Probe { delay_ms: 500 });
    assert_eq!(phase, Phase::Polling { probes: 1 });
    assert_eq!(step(phase, Event::ProbeFinished { healthy: true }), (Phase::Complete, Action::RevealWindow));
}

#[test]
fn completed_sequence_does_not_rerun() {
    assert_eq!(step(Phase::Complete, Event::Launch { setup_needed: false }), (Phase::Complete, Action::Nothing));
    assert_eq!(step(Phase::Failed, Event::StartFinished { ok: true }), (Phase::Failed, Action::Nothing));
}
