use companion_launcher::config::diagnostic;
use companion_launcher::supervisor::{run_to_outcome, step, Action, Event, Outcome, State, MAX_POLLS};

#[test]
fn start_leads_to_liveness_check() {
    assert_eq!(step(State::Idle, Event::Start), (State::CheckingLiveness, Action::Probe));
}

#[test]
fn live_probe_short_circuits_to_already_running() {
    let (s, a) = step(State::CheckingLiveness, Event::Probe { live: true });
    assert_eq!(s, State::AlreadyRunning);
    assert_eq!(a, Action::Done);
}

#[test]
fn dead_probe_moves_on_to_resolving() {
    assert_eq!(
        step(State::CheckingLiveness, Event::Probe { live: false }),
        (State::Resolving, Action::Resolve)
    );
}

#[test]
fn spawn_is_attempted_whatever_resolution_yielded() {
    // Resolution never gates the spawn: even the bare fallback command is
    // handed to the operating system and failure surfaces as a spawn error.
    assert_eq!(step(State::Resolving, Event::Resolved), (State::Spawning, Action::Spawn));
}

#[test]
fn failed_spawn_is_terminal() {
    assert_eq!(step(State::Spawning, Event::Spawned { ok: false }), (State::SpawnFailed, Action::Done));
}

#[test]
fn successful_spawn_starts_polling() {
    assert_eq!(
        step(State::Spawning, Event::Spawned { ok: true }),
        (State::Polling { polls: 0 }, Action::SleepThenProbe)
    );
}

#[test]
fn polling_stops_at_first_live_probe() {
    assert_eq!(step(State::Polling { polls: 7 }, Event::Probe { live: true }), (State::Ready, Action::Done));
}

#[test]
fn polling_continues_while_budget_remains() {
    assert_eq!(
        step(State::Polling { polls: 0 }, Event::Probe { live: false }),
        (State::Polling { polls: 1 }, Action::SleepThenProbe)
    );
}

#[test]
fn last_failed_poll_times_out_and_kills_once() {
    let (s, a) = step(State::Polling { polls: MAX_POLLS - 1 }, Event::Probe { live: false });
    assert_eq!(s, State::TimedOut);
    assert_eq!(a, Action::Kill);
}

#[test]
fn scenario_ready_on_fifth_poll() {
    // Initial check dead, spawn succeeds, fifth poll live: Ready after
    // 1 + 5 probes, child never killed.
    let probes = vec![false, false, false, false, false, true];
    let r = run_to_outcome(&probes, true);
    assert_eq!(r.outcome, Outcome::Ready);
    assert_eq!(r.probes, 6);
    assert_eq!(r.resolves, 1);
    assert_eq!(r.spawns, 1);
    assert_eq!(r.kills, 0);
}

#[test]
fn scenario_timeout_after_thirty_polls() {
    // Probe never turns live: exactly MAX_POLLS polling probes after the
    // initial check, then TimedOut with exactly one kill.
    let probes = vec![false];
    let r = run_to_outcome(&probes, true);
    assert_eq!(r.outcome, Outcome::TimedOut);
    assert_eq!(r.probes, MAX_POLLS + 1);
    assert_eq!(r.spawns, 1);
    assert_eq!(r.kills, 1);
}

#[test]
fn scenario_already_running_spawns_nothing() {
    // Live at the first check: zero resolutions, zero spawns, one probe.
    let probes = vec![true];
    let r = run_to_outcome(&probes, true);
    assert_eq!(r.outcome, Outcome::AlreadyRunning);
    assert_eq!(r.probes, 1);
    assert_eq!(r.resolves, 0);
    assert_eq!(r.spawns, 0);
    assert_eq!(r.kills, 0);
}

#[test]
fn scenario_spawn_failure_is_reported_without_polling() {
    let probes = vec![false, true];
    let r = run_to_outcome(&probes, false);
    assert_eq!(r.outcome, Outcome::SpawnFailed);
    assert_eq!(r.probes, 1);
    assert_eq!(r.resolves, 1);
    assert_eq!(r.spawns, 1);
    assert_eq!(r.kills, 0);
}

#[test]
fn a_probe_live_too_late_still_times_out() {
    // The 31st polling probe would be live, but the budget is MAX_POLLS.
    let mut probes = vec![false; 31];
    probes.push(true);
    let r = run_to_outcome(&probes, true);
    assert_eq!(r.outcome, Outcome::TimedOut);
    assert_eq!(r.probes, MAX_POLLS + 1);
    assert_eq!(r.kills, 1);
}

#[test]
fn success_split_of_outcomes() {
    assert!(Outcome::AlreadyRunning.is_success());
    assert!(Outcome::Ready.is_success());
    assert!(!Outcome::TimedOut.is_success());
    assert!(!Outcome::SpawnFailed.is_success());
}

#[test]
fn diagnostics_name_each_outcome() {
    assert_eq!(diagnostic(Outcome::AlreadyRunning), "Backend already running");
    assert_eq!(diagnostic(Outcome::Ready), "Backend started successfully");
    assert_eq!(diagnostic(Outcome::TimedOut), "Backend failed to start within 30 seconds");
    assert_eq!(diagnostic(Outcome::SpawnFailed), "Failed to start backend");
}
