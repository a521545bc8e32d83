//! The render-loop state machine.
//!
//! A single control thread drives one tick after another: poll input,
//! sample metrics, update the trend histories and the process snapshot,
//! render, sleep. The phases run strictly forward,
//! `Running -> ShuttingDown -> Terminated`, and the terminal-release
//! action is emitted exactly once on every path that terminates — the
//! safety-critical invariant of the whole program.
//!
//! The driver around this crate performs the outside work of a tick
//! (the poll, the provider reads, the drawing, the sleep) and hands the
//! results in as a [`TickInput`]; [`tick`] makes every decision. A
//! render failure is absorbed by the driver (the frame is skipped and
//! the loop continues); it is deliberately no input of the transition,
//! so a failed frame can affect neither the phase nor the release
//! accounting.

use vstd::prelude::*;

use crate::history::HistoryBuffer;
use crate::history::push_model;
use crate::input::Key;
use crate::input::quit_requested;
use crate::input::quit_requested_spec;
use crate::process::ProcessRecord;
use crate::sampler::Sample;
use crate::sampler::SamplerError;
use crate::sampler::cpu_sample_spec;
use crate::sampler::make_sample;
use crate::sampler::mem_sample_spec;
use crate::sampler::value_or_placeholder;
use crate::sampler::value_or_placeholder_spec;

verus! {

/// The phase of the render loop; transitions are linear, with no way
/// back.
#[derive(Clone, Copy, Debug, PartialEq, Eq, Structural)]
pub enum LoopPhase {
    /// Ticks execute: poll, sample, push, render, sleep.
    Running,
    /// A quit was observed; the next step releases the terminal.
    ShuttingDown,
    /// Final phase; nothing further happens.
    Terminated,
}

/// What the driver must do after one call of [`tick`].
#[derive(Clone, Copy, Debug, PartialEq, Eq, Structural)]
pub enum TickAction {
    /// Draw a frame from the updated state, then sleep out the tick.
    Render,
    /// A quit key was observed; nothing was sampled or rendered.
    ShutdownStarted,
    /// Release the terminal (leave raw mode, alternate screen, show the
    /// cursor). Emitted exactly once per run.
    Released,
    /// The loop is over; nothing to do.
    Idle,
}

/// Everything the outside world delivered for one tick: the polled key
/// (if any), the raw CPU reading, the memory totals, and a fresh
/// process snapshot.
pub struct TickInput {
    /// At most one key per poll; `None` on timeout.
    pub key: Option<Key>,
    /// CPU percentage reading, or the provider's failure.
    pub cpu: Result<u64, SamplerError>,
    /// Total memory reported by the provider.
    pub mem_total: u64,
    /// Free memory reported by the provider, never above the total.
    pub mem_free: u64,
    /// Fresh, fully-replacing process snapshot; empty is valid.
    pub processes: Vec<ProcessRecord>,
}

/// All mutable state of the dashboard: one trend history per metric,
/// the most recent sample and process snapshot, the loop phase, and
/// the count of release actions emitted so far.
pub struct DashboardState {
    /// CPU trend history.
    pub cpu_history: HistoryBuffer<u64>,
    /// Memory trend history.
    pub mem_history: HistoryBuffer<u64>,
    /// The most recent pair of metric readings.
    pub latest: Sample,
    /// The most recent process snapshot, fully replaced every tick.
    pub processes: Vec<ProcessRecord>,
    /// Where the loop stands.
    pub phase: LoopPhase,
    /// How many release actions have been emitted.
    pub releases: u64,
}

/// The phase after one tick: a quit key moves `Running` to
/// `ShuttingDown`; `ShuttingDown` always moves on to `Terminated`;
/// `Terminated` is final.
pub open spec fn phase_step(p: LoopPhase, quit: bool) -> LoopPhase {
    match p {
        LoopPhase::Running => if quit {
            LoopPhase::ShuttingDown
        } else {
            LoopPhase::Running
        },
        LoopPhase::ShuttingDown => LoopPhase::Terminated,
        LoopPhase::Terminated => LoopPhase::Terminated,
    }
}

/// The action one tick emits, determined by the old phase and the quit
/// flag alone.
pub open spec fn action_spec(p: LoopPhase, quit: bool) -> TickAction {
    match p {
        LoopPhase::Running => if quit {
            TickAction::ShutdownStarted
        } else {
            TickAction::Render
        },
        LoopPhase::ShuttingDown => TickAction::Released,
        LoopPhase::Terminated => TickAction::Idle,
    }
}

impl DashboardState {
    /// Well-formedness: both histories respect their capacities, the
    /// latest sample holds percentages, and the release count is one
    /// exactly in the terminated phase — the release-exactly-once
    /// invariant.
    pub open spec fn wf(&self) -> bool {
        &&& self.cpu_history.wf()
        &&& self.mem_history.wf()
        &&& self.latest.wf()
        &&& self.releases == (if self.phase is Terminated {
            1int
        } else {
            0int
        })
    }

    /// Fresh state at program start: empty histories of the given
    /// capacity, no data yet, running, nothing released.
    pub fn new(capacity: usize) -> (s: DashboardState)
        requires
            capacity >= 1,
        ensures
            s.wf(),
            s.phase == LoopPhase::Running,
            s.cpu_history@ == Seq::<u64>::empty(),
            s.mem_history@ == Seq::<u64>::empty(),
            s.cpu_history.cap() == capacity,
            s.mem_history.cap() == capacity,
            s.processes@ == Seq::<ProcessRecord>::empty(),
            s.latest.cpu_percent is None,
            s.latest.mem_percent is None,
            s.releases == 0,
    {
        DashboardState {
            cpu_history: HistoryBuffer::new(capacity),
            mem_history: HistoryBuffer::new(capacity),
            latest: Sample::empty(),
            processes: Vec::new(),
            phase: LoopPhase::Running,
            releases: 0,
        }
    }
}

/// One tick of the render loop. Input is checked strictly first, so a
/// quit request is never overridden by a stale render: on quit nothing
/// is sampled, pushed or rendered. Otherwise the metric readings are
/// resolved (failures degrade to placeholders, the loop never aborts on
/// a sampler error), both histories are pushed, the process snapshot is
/// replaced, and a render is requested. In `ShuttingDown` the single
/// release action is emitted; `Terminated` is inert.
pub fn tick(state: &mut DashboardState, input: TickInput) -> (act: TickAction)
    requires
        old(state).wf(),
        input.mem_free <= input.mem_total,
    ensures
        final(state).wf(),
        final(state).cpu_history.cap() == old(state).cpu_history.cap(),
        final(state).mem_history.cap() == old(state).mem_history.cap(),
        final(state).phase == phase_step(old(state).phase, quit_requested_spec(input.key)),
        final(state).releases == old(state).releases + (if old(state).phase is ShuttingDown {
            1int
        } else {
            0int
        }),
        act == action_spec(old(state).phase, quit_requested_spec(input.key)),
        (old(state).phase is Running && !quit_requested_spec(input.key)) ==> {
            &&& final(state).latest.cpu_percent == cpu_sample_spec(input.cpu)
            &&& final(state).latest.mem_percent == mem_sample_spec(input.mem_total, input.mem_free)
            &&& final(state).cpu_history@ == push_model(
                old(state).cpu_history@,
                old(state).cpu_history.cap(),
                value_or_placeholder_spec(cpu_sample_spec(input.cpu)),
            )
            &&& final(state).mem_history@ == push_model(
                old(state).mem_history@,
                old(state).mem_history.cap(),
                value_or_placeholder_spec(mem_sample_spec(input.mem_total, input.mem_free)),
            )
            &&& final(state).processes@ == input.processes@
        },
        !(old(state).phase is Running && !quit_requested_spec(input.key)) ==> {
            &&& final(state).latest == old(state).latest
            &&& final(state).cpu_history@ == old(state).cpu_history@
            &&& final(state).mem_history@ == old(state).mem_history@
            &&& final(state).processes@ == old(state).processes@
        },
{
    match state.phase {
        LoopPhase::Running => {
            if quit_requested(&input.key) {
                state.phase = LoopPhase::ShuttingDown;
                TickAction::ShutdownStarted
            } else {
                let sample = make_sample(&input.cpu, input.mem_total, input.mem_free);
                let cpu_value = value_or_placeholder(&sample.cpu_percent);
                let mem_value = value_or_placeholder(&sample.mem_percent);
                state.cpu_history.push(cpu_value);
                state.mem_history.push(mem_value);
                state.latest = sample;
                state.processes = input.processes;
                TickAction::Render
            }
        },
        LoopPhase::ShuttingDown => {
            state.phase = LoopPhase::Terminated;
            state.releases = state.releases + 1;
            TickAction::Released
        },
        LoopPhase::Terminated => TickAction::Idle,
    }
}

/// How long to sleep at the end of a tick to throttle the loop to its
/// cadence: the remainder of the tick period, and nothing when the
/// tick already ran longer than the period.
pub fn throttle_millis(tick_period: u64, elapsed: u64) -> (ms: u64)
    ensures
        ms == (if elapsed >= tick_period {
            0u64
        } else {
            (tick_period - elapsed) as u64
        }),
{
    if elapsed >= tick_period {
        0
    } else {
        tick_period - elapsed
    }
}

/// The phase after driving `p0` through one tick per quit flag, in
/// order. [`tick`] guarantees `final(state).phase ==
/// phase_step(old(state).phase, quit)`, so any run of ticks follows
/// this function.
pub open spec fn run_phase(p0: LoopPhase, quits: Seq<bool>) -> LoopPhase
    decreases quits.len(),
{
    if quits.len() == 0 {
        p0
    } else {
        phase_step(run_phase(p0, quits.drop_last()), quits.last())
    }
}

/// How many release actions a run of ticks emits: one for each tick
/// that starts in `ShuttingDown`, as [`tick`]'s release accounting
/// states.
pub open spec fn run_releases(p0: LoopPhase, quits: Seq<bool>) -> nat
    decreases quits.len(),
{
    if quits.len() == 0 {
        0
    } else {
        run_releases(p0, quits.drop_last()) + (if run_phase(p0, quits.drop_last())
            is ShuttingDown {
            1nat
        } else {
            0nat
        })
    }
}

/// Release-always, release-at-most-once: over every possible run of
/// ticks from the start state — whatever mix of quiet ticks, quit
/// keys, sampler failures and skipped frames it holds, since none of
/// those affect the phase except a quit — the terminal-release action
/// is emitted at most once, and exactly once on every run that
/// terminates.
pub proof fn lemma_release_exactly_once(quits: Seq<bool>)
    ensures
        run_releases(LoopPhase::Running, quits) <= 1,
        run_phase(LoopPhase::Running, quits) is Terminated <==> run_releases(
            LoopPhase::Running,
            quits,
        ) == 1,
    decreases quits.len(),
{
    if quits.len() > 0 {
        lemma_release_exactly_once(quits.drop_last());
    }
}

/// Quit latency: once a quit key is delivered to a running loop, the
/// loop is terminated two ticks later — the tick that observes the
/// quit and the tick that releases the terminal. In time, that is at
/// most one poll timeout plus one CPU sampling window plus one render
/// per tick.
pub proof fn lemma_quit_latency(quits: Seq<bool>, i: int)
    requires
        0 <= i,
        i + 2 <= quits.len(),
        run_phase(LoopPhase::Running, quits.take(i)) is Running,
        quits[i],
    ensures
        run_phase(LoopPhase::Running, quits.take(i + 2)) is Terminated,
{
    let p0 = LoopPhase::Running;
    assert(quits.take(i + 1).drop_last() =~= quits.take(i));
    assert(quits.take(i + 1).last() == quits[i]);
    assert(run_phase(p0, quits.take(i + 1)) is ShuttingDown);
    assert(quits.take(i + 2).drop_last() =~= quits.take(i + 1));
    assert(run_phase(p0, quits.take(i + 2)) is Terminated);
}

} // verus!
