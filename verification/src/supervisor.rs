//! Launch supervisor: a state machine that brings up the companion backend.
//! One liveness probe first (an already-running backend short-circuits the
//! whole bootstrap), then resolution, then a spawn, then a bounded polling
//! loop — one probe per fixed-cadence tick, at most `MAX_POLLS` of them —
//! ending in `Ready`, or in `TimedOut` with exactly one termination of the
//! spawned child. The host performs each emitted `Action` (probe, resolve,
//! spawn, sleep-then-probe, kill) and feeds the outcome back as the next
//! `Event`; `run_to_outcome` is the same loop run over a pre-supplied
//! sequence of probe outcomes.

use vstd::prelude::*;

verus! {

/// Bound on the polling loop: probes after a spawn, one per tick.
pub const MAX_POLLS: u32 = 30;

/// The supervisor's states. `Polling { polls }` awaits the result of
/// polling probe number `polls + 1`.
#[derive(Clone, Copy, PartialEq, Eq, Structural, Debug)]
pub enum State {
    Idle,
    CheckingLiveness,
    Resolving,
    Spawning,
    Polling { polls: u32 },
    AlreadyRunning,
    Ready,
    TimedOut,
    SpawnFailed,
}

/// What the host reports back to the supervisor.
#[derive(Clone, Copy, PartialEq, Eq, Structural, Debug)]
pub enum Event {
    Start,
    Probe { live: bool },
    Resolved,
    Spawned { ok: bool },
}

/// What the supervisor asks the host to do next. `Done` closes the
/// bootstrap; `Kill` terminates the spawned child and closes it.
#[derive(Clone, Copy, PartialEq, Eq, Structural, Debug)]
pub enum Action {
    Probe,
    Resolve,
    Spawn,
    SleepThenProbe,
    Kill,
    Done,
}

impl State {
    /// A terminal state: the bootstrap has reached its outcome.
    pub open spec fn is_terminal(self) -> bool {
        match self {
            State::AlreadyRunning | State::Ready | State::TimedOut | State::SpawnFailed => true,
            _ => false,
        }
    }
}

/// The events each state accepts; `step` is defined exactly on these.
pub open spec fn accepts(s: State, e: Event) -> bool {
    match (s, e) {
        (State::Idle, Event::Start) => true,
        (State::CheckingLiveness, Event::Probe { .. }) => true,
        (State::Resolving, Event::Resolved) => true,
        (State::Spawning, Event::Spawned { .. }) => true,
        (State::Polling { polls }, Event::Probe { .. }) => polls < MAX_POLLS,
        _ => false,
    }
}

/// The transition relation of the supervisor.
pub open spec fn next_state(s: State, e: Event) -> State {
    match (s, e) {
        (State::Idle, Event::Start) => State::CheckingLiveness,
        (State::CheckingLiveness, Event::Probe { live }) => if live {
            State::AlreadyRunning
        } else {
            State::Resolving
        },
        (State::Resolving, Event::Resolved) => State::Spawning,
        (State::Spawning, Event::Spawned { ok }) => if ok {
            State::Polling { polls: 0 }
        } else {
            State::SpawnFailed
        },
        (State::Polling { polls }, Event::Probe { live }) => if live {
            State::Ready
        } else if polls + 1 < MAX_POLLS {
            State::Polling { polls: (polls + 1) as u32 }
        } else {
            State::TimedOut
        },
        _ => s,
    }
}

/// The action the host must perform after each transition.
pub open spec fn next_action(s: State, e: Event) -> Action {
    match (s, e) {
        (State::Idle, Event::Start) => Action::Probe,
        (State::CheckingLiveness, Event::Probe { live }) => if live {
            Action::Done
        } else {
            Action::Resolve
        },
        (State::Resolving, Event::Resolved) => Action::Spawn,
        (State::Spawning, Event::Spawned { ok }) => if ok {
            Action::SleepThenProbe
        } else {
            Action::Done
        },
        (State::Polling { polls }, Event::Probe { live }) => if live {
            Action::Done
        } else if polls + 1 < MAX_POLLS {
            Action::SleepThenProbe
        } else {
            Action::Kill
        },
        _ => Action::Done,
    }
}

/// One step of the supervisor: the next state and the action the host must
/// perform. A live probe while checking liveness short-circuits straight
/// to `AlreadyRunning` and asks for nothing further — in particular no
/// resolution and no spawn.
pub fn step(s: State, e: Event) -> (r: (State, Action))
    requires
        accepts(s, e),
    ensures
        r.0 == next_state(s, e),
        r.1 == next_action(s, e),
{
    match (s, e) {
        (State::Idle, Event::Start) => (State::CheckingLiveness, Action::Probe),
        (State::CheckingLiveness, Event::Probe { live }) => if live {
            (State::AlreadyRunning, Action::Done)
        } else {
            (State::Resolving, Action::Resolve)
        },
        (State::Resolving, Event::Resolved) => (State::Spawning, Action::Spawn),
        (State::Spawning, Event::Spawned { ok }) => if ok {
            (State::Polling { polls: 0 }, Action::SleepThenProbe)
        } else {
            (State::SpawnFailed, Action::Done)
        },
        (State::Polling { polls }, Event::Probe { live }) => if live {
            (State::Ready, Action::Done)
        } else if polls + 1 < MAX_POLLS {
            (State::Polling { polls: polls + 1 }, Action::SleepThenProbe)
        } else {
            (State::TimedOut, Action::Kill)
        },
        _ => (s, Action::Done),
    }
}

/// Terminal outcome of one bootstrap attempt. `AlreadyRunning` and `Ready`
/// are the successes; the others are failures the host only logs.
#[derive(Clone, Copy, PartialEq, Eq, Structural, Debug)]
pub enum Outcome {
    AlreadyRunning,
    Ready,
    TimedOut,
    SpawnFailed,
}

impl Outcome {
    /// Whether the backend is up when the bootstrap closes.
    pub open spec fn is_success_spec(self) -> bool {
        match self {
            Outcome::AlreadyRunning | Outcome::Ready => true,
            Outcome::TimedOut | Outcome::SpawnFailed => false,
        }
    }

    pub fn is_success(self) -> (r: bool)
        ensures
            r == self.is_success_spec(),
    {
        match self {
            Outcome::AlreadyRunning | Outcome::Ready => true,
            Outcome::TimedOut | Outcome::SpawnFailed => false,
        }
    }
}

/// What one bootstrap run did: its outcome and how often each effect was
/// asked of the host.
#[derive(Clone, Copy, PartialEq, Eq, Structural, Debug)]
pub struct Report {
    pub outcome: Outcome,
    pub probes: u32,
    pub resolves: u32,
    pub spawns: u32,
    pub kills: u32,
}

/// The scripted outcome of probe number `i` (0 is the initial liveness
/// check, `i >= 1` the polling probes): listed `true`, or `false` when the
/// script holds no entry for it.
pub open spec fn probe_at(probes: Seq<bool>, i: int) -> bool {
    0 <= i < probes.len() && probes[i]
}

/// The number of the first live polling probe at or after `j`, or
/// `MAX_POLLS + 1` when none of the probes up to `MAX_POLLS` is live.
pub open spec fn first_live_from(probes: Seq<bool>, j: int) -> int
    decreases MAX_POLLS + 1 - j,
{
    if j < 0 || j > MAX_POLLS {
        MAX_POLLS + 1
    } else if probe_at(probes, j) {
        j
    } else {
        first_live_from(probes, j + 1)
    }
}

/// `first_live_from` lands on the first live polling probe.
proof fn lemma_first_live_is(probes: Seq<bool>, lo: int, k: int)
    requires
        1 <= lo <= k <= MAX_POLLS,
        probe_at(probes, k),
        forall|j: int| lo <= j < k ==> !probe_at(probes, j),
    ensures
        first_live_from(probes, lo) == k,
    decreases k - lo,
{
    if lo < k {
        lemma_first_live_is(probes, lo + 1, k);
    }
}

/// With no live probe up to `MAX_POLLS`, the poll budget is exhausted.
proof fn lemma_no_live(probes: Seq<bool>, lo: int)
    requires
        1 <= lo,
        forall|j: int| lo <= j <= MAX_POLLS ==> !probe_at(probes, j),
    ensures
        first_live_from(probes, lo) == MAX_POLLS + 1,
    decreases MAX_POLLS + 1 - lo,
{
    if lo <= MAX_POLLS {
        lemma_no_live(probes, lo + 1);
    }
}

/// Scripted outcome of probe number `i`: the listed value, `false` past
/// the end of the script.
fn probe_value(probes: &Vec<bool>, i: u32) -> (b: bool)
    ensures
        b == probe_at(probes@, i as int),
{
    let iu = i as usize;
    if iu < probes.len() {
        probes[iu]
    } else {
        false
    }
}

/// Loop measure: strictly decreasing along every non-terminal transition.
spec fn state_measure(s: State) -> int {
    match s {
        State::Idle => MAX_POLLS + 4,
        State::CheckingLiveness => MAX_POLLS + 3,
        State::Resolving => MAX_POLLS + 2,
        State::Spawning => MAX_POLLS + 1,
        State::Polling { polls } => MAX_POLLS - polls,
        _ => 0,
    }
}

/// Run the supervisor from `Idle` to a terminal state, reading probe
/// outcomes from a script: entry 0 answers the initial liveness check and
/// entry `i >= 1` the `i`-th polling probe (missing entries answer
/// `false`); `spawn_ok` answers the spawn. The contract pins the whole
/// run: a live initial probe short-circuits to `AlreadyRunning` with
/// nothing resolved or spawned; a failed spawn closes as `SpawnFailed`
/// after the one probe; otherwise polling ends at `Ready` on the first
/// live probe, or as `TimedOut` after exactly `MAX_POLLS` polling probes
/// with exactly one kill of the spawned child — never more probes, and a
/// kill in no other outcome.
pub fn run_to_outcome(probes: &Vec<bool>, spawn_ok: bool) -> (r: Report)
    ensures
        r.resolves == if probe_at(probes@, 0) { 0u32 } else { 1u32 },
        r.spawns == r.resolves,
        r.kills == if r.outcome == Outcome::TimedOut { 1u32 } else { 0u32 },
        r.probes <= MAX_POLLS + 1,
        probe_at(probes@, 0) ==> r.outcome == Outcome::AlreadyRunning && r.probes == 1,
        !probe_at(probes@, 0) && !spawn_ok ==> r.outcome == Outcome::SpawnFailed && r.probes == 1,
        !probe_at(probes@, 0) && spawn_ok && first_live_from(probes@, 1) <= MAX_POLLS ==> {
            &&& r.outcome == Outcome::Ready
            &&& r.probes == first_live_from(probes@, 1) + 1
        },
        !probe_at(probes@, 0) && spawn_ok && first_live_from(probes@, 1) > MAX_POLLS ==> {
            &&& r.outcome == Outcome::TimedOut
            &&& r.probes == MAX_POLLS + 1
        },
        r.outcome.is_success_spec() <==> probe_at(probes@, 0) || (spawn_ok && first_live_from(
            probes@,
            1,
        ) <= MAX_POLLS),
{
    let first = step(State::Idle, Event::Start);
    let mut st: State = first.0;
    let mut act: Action = first.1;
    let mut probes_used: u32 = 0;
    let mut resolves: u32 = 0;
    let mut spawns: u32 = 0;
    loop
        invariant
            match st {
                State::CheckingLiveness => {
                    &&& act == Action::Probe
                    &&& probes_used == 0
                    &&& resolves == 0
                    &&& spawns == 0
                },
                State::Resolving => {
                    &&& act == Action::Resolve
                    &&& probes_used == 1
                    &&& !probe_at(probes@, 0)
                    &&& resolves == 0
                    &&& spawns == 0
                },
                State::Spawning => {
                    &&& act == Action::Spawn
                    &&& probes_used == 1
                    &&& !probe_at(probes@, 0)
                    &&& resolves == 1
                    &&& spawns == 0
                },
                State::Polling { polls } => {
                    &&& act == Action::SleepThenProbe
                    &&& polls < MAX_POLLS
                    &&& probes_used == polls + 1
                    &&& !probe_at(probes@, 0)
                    &&& spawn_ok
                    &&& resolves == 1
                    &&& spawns == 1
                    &&& forall|j: int| 1 <= j <= polls ==> !probe_at(probes@, j)
                },
                _ => false,
            },
        decreases state_measure(st),
    {
        match act {
            Action::Probe | Action::SleepThenProbe => {
                let live = probe_value(probes, probes_used);
                probes_used = probes_used + 1;
                let ghost polls_before: int = match st {
                    State::Polling { polls } => polls as int,
                    _ => -1int,
                };
                let n = step(st, Event::Probe { live });
                st = n.0;
                act = n.1;
                match st {
                    State::AlreadyRunning => {
                        return Report {
                            outcome: Outcome::AlreadyRunning,
                            probes: probes_used,
                            resolves,
                            spawns,
                            kills: 0,
                        };
                    },
                    State::Ready => {
                        proof {
                            lemma_first_live_is(probes@, 1, polls_before + 1);
                        }
                        return Report {
                            outcome: Outcome::Ready,
                            probes: probes_used,
                            resolves,
                            spawns,
                            kills: 0,
                        };
                    },
                    State::TimedOut => {
                        proof {
                            lemma_no_live(probes@, 1);
                        }
                        return Report {
                            outcome: Outcome::TimedOut,
                            probes: probes_used,
                            resolves,
                            spawns,
                            kills: 1,
                        };
                    },
                    _ => {},
                }
            },
            Action::Resolve => {
                resolves = resolves + 1;
                let n = step(st, Event::Resolved);
                st = n.0;
                act = n.1;
            },
            Action::Spawn => {
                spawns = spawns + 1;
                let n = step(st, Event::Spawned { ok: spawn_ok });
                st = n.0;
                act = n.1;
                match st {
                    State::SpawnFailed => {
                        return Report {
                            outcome: Outcome::SpawnFailed,
                            probes: probes_used,
                            resolves,
                            spawns,
                            kills: 0,
                        };
                    },
                    _ => {},
                }
            },
            _ => {
                proof {
                    assert(false);
                }
            },
        }
    }
}

/// Law: a live first probe short-circuits the machine to `AlreadyRunning`
/// with no further action — resolving and spawning are never reached.
pub proof fn lemma_liveness_short_circuit()
    ensures
        next_state(State::CheckingLiveness, Event::Probe { live: true }) == State::AlreadyRunning,
        next_action(State::CheckingLiveness, Event::Probe { live: true }) == Action::Done,
        (State::AlreadyRunning).is_terminal(),
{
}

} // verus!
