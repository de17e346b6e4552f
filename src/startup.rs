use vstd::prelude::*;

verus! {

/// Health probes made before the sequence gives up.
pub const MAX_HEALTH_ATTEMPTS: u32 = 30;

/// Pause between two health probes, in milliseconds.
pub const POLL_INTERVAL_MS: u64 = 500;

/// Where the startup sequence stands.
#[derive(Clone, Copy, Debug, PartialEq, Eq, Structural)]
pub enum Phase {
    /// Waiting for the launch.
    Idle,
    /// The backend is being started.
    Starting,
    /// `probes` health probes have failed so far.
    Polling { probes: u32 },
    /// The window has been revealed.
    Complete,
    /// Every probe failed; the window stays hidden.
    TimedOut,
    /// The backend could not be started.
    Failed,
}

/// What the host reports to the sequence.
#[derive(Clone, Copy, Debug, PartialEq, Eq, Structural)]
pub enum Event {
    Launch { setup_needed: bool },
    StartFinished { ok: bool },
    ProbeFinished { healthy: bool },
}

/// What the host does next.
#[derive(Clone, Copy, Debug, PartialEq, Eq, Structural)]
pub enum Action {
    /// Restore the window's geometry, show it and focus it.
    RevealWindow,
    /// Start the backend and report the outcome.
    StartBackend,
    /// Wait this long, probe the health endpoint and report the outcome.
    Probe { delay_ms: u64 },
    /// Log that the backend never became healthy.
    ReportTimeout,
    /// Log that the backend failed to start.
    ReportStartFailure,
    Nothing,
}

/// The next phase and the action to take when `event` comes in `phase`.
pub open spec fn step_spec(phase: Phase, event: Event) -> (Phase, Action) {
    match (phase, event) {
        (Phase::Idle, Event::Launch { setup_needed }) => if setup_needed {
            (Phase::Complete, Action::RevealWindow)
        } else {
            (Phase::Starting, Action::StartBackend)
        },
        (Phase::Starting, Event::StartFinished { ok }) => if ok {
            (Phase::Polling { probes: 0 }, Action::Probe { delay_ms: 0 })
        } else {
            (Phase::Failed, Action::ReportStartFailure)
        },
        (Phase::Polling { probes }, Event::ProbeFinished { healthy }) => if healthy {
            (Phase::Complete, Action::RevealWindow)
        } else if probes + 1 >= 30 {
            (Phase::TimedOut, Action::ReportTimeout)
        } else {
            (Phase::Polling { probes: (probes + 1) as u32 }, Action::Probe { delay_ms: 500 })
        },
        _ => (phase, Action::Nothing),
    }
}

/// A phase that no event leaves.
pub open spec fn terminal(phase: Phase) -> bool {
    phase is Complete || phase is TimedOut || phase is Failed
}

/// A phase the sequence can be in: a polling phase has counted fewer failed
/// probes than the budget.
pub open spec fn reachable(phase: Phase) -> bool {
    match phase {
        Phase::Polling { probes } => probes < 30,
        _ => true,
    }
}

/// Advances the startup sequence by one event.
///
/// A launch that needs setup reveals the window at once; any other starts
/// the backend. A failed start ends the sequence. After a successful start
/// the health endpoint is probed, at most `MAX_HEALTH_ATTEMPTS` times and
/// `POLL_INTERVAL_MS` apart; the first healthy probe reveals the window and
/// the last failed one ends the sequence with the window hidden. An event
/// that does not fit the phase changes nothing.
pub fn step(phase: Phase, event: Event) -> (r: (Phase, Action))
    requires
        reachable(phase),
    ensures
        r == step_spec(phase, event),
        reachable(r.0),
{
    match (phase, event) {
        (Phase::Idle, Event::Launch { setup_needed }) => {
            if setup_needed {
                (Phase::Complete, Action::RevealWindow)
            } else {
                (Phase::Starting, Action::StartBackend)
            }
        },
        (Phase::Starting, Event::StartFinished { ok }) => {
            if ok {
                (Phase::Polling { probes: 0 }, Action::Probe { delay_ms: 0 })
            } else {
                (Phase::Failed, Action::ReportStartFailure)
            }
        },
        (Phase::Polling { probes }, Event::ProbeFinished { healthy }) => {
            if healthy {
                (Phase::Complete, Action::RevealWindow)
            } else if probes + 1 >= MAX_HEALTH_ATTEMPTS {
                (Phase::TimedOut, Action::ReportTimeout)
            } else {
                (Phase::Polling { probes: probes + 1 }, Action::Probe { delay_ms: POLL_INTERVAL_MS })
            }
        },
        _ => (phase, Action::Nothing),
    }
}

/// The phase and the actions taken after `k` failed probes, from the
/// polling phase that `probes` failed probes started.
pub open spec fn unhealthy_run(probes: u32, k: nat) -> (Phase, Seq<Action>)
    decreases k,
{
    if k == 0 {
        (Phase::Polling { probes }, Seq::empty())
    } else {
        let (phase, actions) = unhealthy_run(probes, (k - 1) as nat);
        let (next, action) = step_spec(phase, Event::ProbeFinished { healthy: false });
        (next, actions.push(action))
    }
}

/// How many probes a sequence of actions asks for.
pub open spec fn probe_count(actions: Seq<Action>) -> nat
    decreases actions.len(),
{
    if actions.len() == 0 {
        0
    } else {
        probe_count(actions.drop_last()) + if actions.last() is Probe {
            1nat
        } else {
            0nat
        }
    }
}

proof fn lemma_unhealthy_prefix(k: nat)
    requires
        k < 30,
    ensures
        unhealthy_run(0, k).0 == (Phase::Polling { probes: k as u32 }),
        unhealthy_run(0, k).1.len() == k,
        probe_count(unhealthy_run(0, k).1) == k,
        forall|i: int| 0 <= i < k ==> (#[trigger] unhealthy_run(0, k).1[i]) == (Action::Probe { delay_ms: 500 }),
    decreases k,
{
    if k > 0 {
        lemma_unhealthy_prefix((k - 1) as nat);
        let prev = unhealthy_run(0, (k - 1) as nat).1;
        assert(prev.push(Action::Probe { delay_ms: 500 }).drop_last() =~= prev);
    }
}

/// When the backend starts but never becomes healthy, the backend is probed
/// exactly `MAX_HEALTH_ATTEMPTS` times: once on the successful start, then
/// after each failed probe but the last, each time `POLL_INTERVAL_MS` after
/// the previous one. Then the sequence ends without revealing the window, and
/// stays ended.
pub proof fn lemma_unhealthy_backend_times_out(event: Event)
    ensures
        step_spec(Phase::Starting, Event::StartFinished { ok: true }) == (
        Phase::Polling { probes: 0 },
        Action::Probe { delay_ms: 0 },
        ),
        unhealthy_run(0, 30).0 == Phase::TimedOut,
        unhealthy_run(0, 30).1.len() == 30,
        1 + probe_count(unhealthy_run(0, 30).1) == 30,
        forall|i: int| 0 <= i < 29 ==> (#[trigger] unhealthy_run(0, 30).1[i]) == (Action::Probe { delay_ms: 500 }),
        unhealthy_run(0, 30).1.last() == Action::ReportTimeout,
        !unhealthy_run(0, 30).1.contains(Action::RevealWindow),
        step_spec(Phase::TimedOut, event) == (Phase::TimedOut, Action::Nothing),
{
    lemma_unhealthy_prefix(29);
    let prev = unhealthy_run(0, 29).1;
    let all = unhealthy_run(0, 30).1;
    assert(all == prev.push(Action::ReportTimeout));
    assert(all.drop_last() =~= prev);
    assert forall|i: int| 0 <= i < 29 implies all[i] == (Action::Probe { delay_ms: 500 }) by {
        assert(all[i] == prev[i]);
    }
    assert forall|i: int| 0 <= i < 30 implies all[i] != Action::RevealWindow by {
        if i < 29 {
            assert(all[i] == prev[i]);
        }
    }
}

/// No event leads out of a phase that ended the sequence.
pub proof fn lemma_terminal_phases_stay(phase: Phase, event: Event)
    requires
        terminal(phase),
    ensures
        step_spec(phase, event) == (phase, Action::Nothing),
{
}

} // verus!
