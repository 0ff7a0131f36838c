//! The scheduling loop around the sync cycle.
//!
//! The scheduler gates the pipeline on node role, ensures the working
//! directory exists, absorbs exactly one initial tick, and then starts
//! one sync cycle per tick — never a second one while a cycle is still
//! in flight. All decisions live here; the caller performs the actions
//! (directory creation, waiting for ticks, running a cycle) and feeds
//! the results back as events.

use vstd::prelude::*;

verus! {

/// Where the scheduler stands.
#[derive(Clone, Copy, Debug, PartialEq, Eq, Structural)]
pub enum SchedState {
    /// Nothing queried yet.
    Init,
    /// The node does not accept writes: the pipeline never starts and
    /// performs no action at all.
    Disabled,
    /// The working directory is being created.
    EnsuringDir,
    /// Directory creation failed: startup is abandoned.
    Failed,
    /// Set up; the first tick is absorbed without starting a cycle.
    WaitingFirstTick,
    /// Between cycles, waiting for the next tick.
    Idle,
    /// A sync cycle is in flight.
    CycleRunning,
}

/// What the caller reports to the scheduler.
#[derive(Clone, Copy, Debug, PartialEq, Eq, Structural)]
pub enum SchedEvent {
    /// The cluster role was queried: whether this node accepts writes.
    Started { is_write_node: bool },
    /// Whether the working directory could be created (idempotently).
    DirEnsured { ok: bool },
    /// The interval elapsed.
    Tick,
    /// The running cycle finished; a failed one is only logged.
    CycleFinished { ok: bool },
}

/// What the caller must do next. Only these actions touch the
/// filesystem or start work.
#[derive(Clone, Copy, Debug, PartialEq, Eq, Structural)]
pub enum SchedAction {
    /// Do nothing but wait for the next event.
    NoAction,
    /// Create the working directory and its manifest subdirectory,
    /// recursively and idempotently.
    EnsureDir,
    /// Run one sync cycle.
    StartCycle,
}

/// The scheduler's transition function. Total: an event that does not
/// belong to the current state changes nothing.
pub open spec fn spec_sched_step(s: SchedState, e: SchedEvent) -> (SchedState, SchedAction) {
    match (s, e) {
        (SchedState::Init, SchedEvent::Started { is_write_node }) => {
            if is_write_node {
                (SchedState::EnsuringDir, SchedAction::EnsureDir)
            } else {
                (SchedState::Disabled, SchedAction::NoAction)
            }
        },
        (SchedState::EnsuringDir, SchedEvent::DirEnsured { ok }) => {
            if ok {
                (SchedState::WaitingFirstTick, SchedAction::NoAction)
            } else {
                (SchedState::Failed, SchedAction::NoAction)
            }
        },
        (SchedState::WaitingFirstTick, SchedEvent::Tick) => (SchedState::Idle, SchedAction::NoAction),
        (SchedState::Idle, SchedEvent::Tick) => (SchedState::CycleRunning, SchedAction::StartCycle),
        (SchedState::CycleRunning, SchedEvent::CycleFinished { ok: _ }) => (
            SchedState::Idle,
            SchedAction::NoAction,
        ),
        (_, _) => (s, SchedAction::NoAction),
    }
}

/// Advances the scheduler by one step.
pub fn sched_step(state: SchedState, event: SchedEvent) -> (r: (SchedState, SchedAction))
    ensures
        r == spec_sched_step(state, event),
{
    match (state, event) {
        (SchedState::Init, SchedEvent::Started { is_write_node }) => {
            if is_write_node {
                (SchedState::EnsuringDir, SchedAction::EnsureDir)
            } else {
                (SchedState::Disabled, SchedAction::NoAction)
            }
        },
        (SchedState::EnsuringDir, SchedEvent::DirEnsured { ok }) => {
            if ok {
                (SchedState::WaitingFirstTick, SchedAction::NoAction)
            } else {
                (SchedState::Failed, SchedAction::NoAction)
            }
        },
        (SchedState::WaitingFirstTick, SchedEvent::Tick) => (
            SchedState::Idle,
            SchedAction::NoAction,
        ),
        (SchedState::Idle, SchedEvent::Tick) => (SchedState::CycleRunning, SchedAction::StartCycle),
        (SchedState::CycleRunning, SchedEvent::CycleFinished { ok: _ }) => (
            SchedState::Idle,
            SchedAction::NoAction,
        ),
        (s, _) => (s, SchedAction::NoAction),
    }
}

/// The actions the scheduler requests along a run, one per event.
pub open spec fn sched_actions(s: SchedState, es: Seq<SchedEvent>) -> Seq<SchedAction>
    decreases es.len(),
{
    if es.len() == 0 {
        Seq::<SchedAction>::empty()
    } else {
        let step = spec_sched_step(s, es[0]);
        seq![step.1] + sched_actions(step.0, es.subrange(1, es.len() as int))
    }
}

/// A run requests exactly one action per event.
pub proof fn lemma_sched_actions_len(s: SchedState, es: Seq<SchedEvent>)
    ensures
        sched_actions(s, es).len() == es.len(),
    decreases es.len(),
{
    if es.len() > 0 {
        let step = spec_sched_step(s, es[0]);
        lemma_sched_actions_len(step.0, es.subrange(1, es.len() as int));
    }
}

/// While a cycle is in flight, no second cycle is started: along any
/// run that begins with a cycle running, every start of a cycle is
/// preceded by the completion of the running one, however many ticks
/// arrive in between.
pub proof fn lemma_no_start_before_finish(es: Seq<SchedEvent>, i: int)
    requires
        0 <= i < es.len(),
        sched_actions(SchedState::CycleRunning, es)[i] == SchedAction::StartCycle,
    ensures
        exists|k: int| 0 <= k < i && (#[trigger] es[k]) is CycleFinished,
    decreases es.len(),
{
    let step = spec_sched_step(SchedState::CycleRunning, es[0]);
    let rest = es.subrange(1, es.len() as int);
    lemma_sched_actions_len(step.0, rest);
    assert(sched_actions(SchedState::CycleRunning, es) == seq![step.1] + sched_actions(
        step.0,
        rest,
    ));
    assert(step.1 != SchedAction::StartCycle);
    assert(i > 0);
    if es[0] is CycleFinished {
        assert(0 <= 0 < i && es[0] is CycleFinished);
    } else {
        assert(step.0 == SchedState::CycleRunning);
        assert(sched_actions(SchedState::CycleRunning, rest)[i - 1] == SchedAction::StartCycle);
        lemma_no_start_before_finish(rest, i - 1);
        let k = choose|k: int| 0 <= k < i - 1 && (#[trigger] rest[k]) is CycleFinished;
        assert(es[k + 1] is CycleFinished);
    }
}

/// On a node that does not accept writes, the pipeline performs no
/// filesystem or network action at all: after the role query, whatever
/// events arrive, every requested action is `NoAction`.
pub proof fn lemma_non_write_node_does_nothing(es: Seq<SchedEvent>)
    ensures
        spec_sched_step(SchedState::Init, SchedEvent::Started { is_write_node: false })
            == (SchedState::Disabled, SchedAction::NoAction),
        sched_actions(SchedState::Disabled, es).len() == es.len(),
        forall|i: int|
            0 <= i < es.len() ==> sched_actions(SchedState::Disabled, es)[i]
                == SchedAction::NoAction,
    decreases es.len(),
{
    if es.len() > 0 {
        let rest = es.subrange(1, es.len() as int);
        lemma_non_write_node_does_nothing(rest);
        assert(spec_sched_step(SchedState::Disabled, es[0]) == (
            SchedState::Disabled,
            SchedAction::NoAction,
        ));
        assert(sched_actions(SchedState::Disabled, es) == seq![SchedAction::NoAction]
            + sched_actions(SchedState::Disabled, rest));
        assert forall|i: int|
            0 <= i < es.len() implies sched_actions(SchedState::Disabled, es)[i]
            == SchedAction::NoAction by {
            if i > 0 {
                assert(sched_actions(SchedState::Disabled, es)[i] == sched_actions(
                    SchedState::Disabled,
                    rest,
                )[i - 1]);
            }
        }
    }
}

/// Two sync cycles never run concurrently: a cycle is started only from
/// the idle state, starting it leaves the scheduler in the in-flight
/// state, and while a cycle is in flight no event but its own
/// completion changes the state — in particular a tick that arrives
/// during a long cycle starts nothing.
pub proof fn lemma_cycles_never_overlap(s: SchedState, e: SchedEvent)
    ensures
        spec_sched_step(s, e).1 == SchedAction::StartCycle ==> s == SchedState::Idle && e
            == SchedEvent::Tick && spec_sched_step(s, e).0 == SchedState::CycleRunning,
        s == SchedState::CycleRunning ==> spec_sched_step(s, e).1 != SchedAction::StartCycle,
        s == SchedState::CycleRunning && !(e is CycleFinished) ==> spec_sched_step(s, e).0
            == SchedState::CycleRunning,
        s == SchedState::CycleRunning && e is CycleFinished ==> spec_sched_step(s, e).0
            == SchedState::Idle,
{
}

/// A cycle's failure never terminates the loop: whether the cycle
/// finished well or not, the scheduler returns to idle and waits for
/// the next tick.
pub proof fn lemma_cycle_failure_tolerated(ok: bool)
    ensures
        spec_sched_step(SchedState::CycleRunning, SchedEvent::CycleFinished { ok })
            == (SchedState::Idle, SchedAction::NoAction),
{
}

/// The first tick after setup is absorbed: it starts no cycle, so the
/// first productive cycle fires one full interval after startup.
pub proof fn lemma_first_tick_absorbed()
    ensures
        spec_sched_step(SchedState::WaitingFirstTick, SchedEvent::Tick)
            == (SchedState::Idle, SchedAction::NoAction),
{
}

} // verus!
