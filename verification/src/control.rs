//! The control loop: looks at the enable flag once per iteration and either
//! streams one full period of the waveform or holds both outputs at zero.
//!
//! An iteration is decided here and handed back as a list of commands; the
//! foreground carries them out in order.

use crate::scheduler::{lemma_pass_in_table_order, pass_from, PwmScheduler, SampleStep};
use crate::table::{zero_duties, DutyPair};
use core::sync::atomic::AtomicBool;
use core::sync::atomic::Ordering;
use vstd::prelude::*;

verus! {

/// The pause between two iterations, in clock cycles.
pub const LOOP_PAUSE_CYCLES: u32 = 1000;

/// The two states of the loop.
#[derive(Clone, Copy, Debug, PartialEq, Eq, Structural)]
pub enum LoopState {
    /// Outputs held at zero.
    Paused,
    /// The waveform is being generated.
    Running,
}

/// One thing for the foreground to do.
#[derive(Clone, Copy, Debug, PartialEq, Eq, Structural)]
pub enum Command {
    /// Drive the indicator output: active while running.
    SetIndicator(bool),
    /// Tell the diagnostic channel that the loop entered this state.
    Report(LoopState),
    /// Write the main duty to channel A and the complementary duty to
    /// channel B.
    WriteDuties(DutyPair),
    /// Block for this many microseconds.
    WaitMicros(u32),
    /// Block for this many clock cycles.
    WaitCycles(u32),
}

/// What one look at the enable flag decides.
#[derive(Clone, Copy, Debug, PartialEq, Eq, Structural)]
pub struct Decision {
    /// The state for this iteration: a full pass when running, zero outputs
    /// when paused.
    pub state: LoopState,
    /// The level of the indicator output.
    pub indicator: bool,
    /// The state to report, on the iteration that enters it and on no other.
    pub report: Option<LoopState>,
    /// The pause after the iteration, in clock cycles.
    pub pause_cycles: u32,
}

/// The state that the flag asks for.
pub open spec fn state_for(enabled: bool) -> LoopState {
    if enabled {
        LoopState::Running
    } else {
        LoopState::Paused
    }
}

/// The decision for an iteration that starts in `state` and reads `enabled`.
pub open spec fn decision_for(state: LoopState, enabled: bool) -> Decision {
    Decision {
        state: state_for(enabled),
        indicator: enabled,
        report: if state_for(enabled) != state {
            Some(state_for(enabled))
        } else {
            None
        },
        pause_cycles: LOOP_PAUSE_CYCLES,
    }
}

/// The commands that carry out a run of scheduler steps: for each step the
/// write, then the wait.
pub open spec fn step_commands(steps: Seq<SampleStep>) -> Seq<Command> {
    Seq::new(
        2 * steps.len(),
        |k: int|
            if k % 2 == 0 {
                Command::WriteDuties(steps[k / 2].duties)
            } else {
                Command::WaitMicros(steps[k / 2].wait_micros)
            },
    )
}

/// The commands that announce a state, if there is one to announce.
pub open spec fn report_commands(report: Option<LoopState>) -> Seq<Command> {
    match report {
        Some(state) => seq![Command::Report(state)],
        None => Seq::empty(),
    }
}

/// The commands that drive the channels for one iteration: one full pass
/// while running, a single write of zero to both channels while paused.
pub open spec fn output_commands(
    state: LoopState,
    pairs: Seq<DutyPair>,
    start: int,
    interval_micros: u32,
) -> Seq<Command> {
    match state {
        LoopState::Running => step_commands(pass_from(pairs, start, interval_micros)),
        LoopState::Paused => seq![Command::WriteDuties(zero_duties())],
    }
}

/// All commands of one iteration, in order: the indicator, the report if the
/// state changed, the channel outputs, the pause.
pub open spec fn iteration_commands(
    state: LoopState,
    enabled: bool,
    pairs: Seq<DutyPair>,
    start: int,
    interval_micros: u32,
) -> Seq<Command> {
    let decision = decision_for(state, enabled);
    seq![Command::SetIndicator(decision.indicator)] + report_commands(decision.report)
        + output_commands(decision.state, pairs, start, interval_micros)
        + seq![Command::WaitCycles(decision.pause_cycles)]
}

impl LoopState {
    /// The line that the diagnostic channel shows for this state.
    pub fn describe(self) -> (line: &'static str)
        ensures
            self == LoopState::Running ==> line@ == "State changed: Running"@,
            self == LoopState::Paused ==> line@ == "State changed: Paused"@,
    {
        match self {
            LoopState::Running => "State changed: Running",
            LoopState::Paused => "State changed: Paused",
        }
    }
}

/// The foreground loop's memory: the state of the previous iteration.
#[derive(Debug)]
pub struct ControlLoop {
    state: LoopState,
}

impl ControlLoop {
    /// The state the loop is in.
    pub closed spec fn current(&self) -> LoopState {
        self.state
    }

    /// A loop in its initial state: paused.
    pub fn new() -> (control: Self)
        ensures
            control.current() == LoopState::Paused,
    {
        ControlLoop { state: LoopState::Paused }
    }

    /// The state the loop is in.
    pub fn state(&self) -> (state: LoopState)
        ensures
            state == self.current(),
    {
        self.state
    }

    /// Starts an iteration with the flag as it was just read: the loop moves
    /// to the state the flag asks for, and reports it only if it is new.
    pub fn observe(&mut self, enabled: bool) -> (decision: Decision)
        ensures
            decision == decision_for(old(self).current(), enabled),
            final(self).current() == state_for(enabled),
    {
        let previous = self.state;
        let state = if enabled {
            LoopState::Running
        } else {
            LoopState::Paused
        };
        self.state = state;
        let report = if state != previous {
            Some(state)
        } else {
            None
        };
        Decision { state, indicator: enabled, report, pause_cycles: LOOP_PAUSE_CYCLES }
    }

    /// Runs one whole iteration with the flag as it was just read, and
    /// returns everything the foreground has to do for it, in order.
    ///
    /// While running that is one full pass of the scheduler, which ends at
    /// the index it started from; while paused the scheduler is not moved.
    pub fn iterate(&mut self, enabled: bool, scheduler: &mut PwmScheduler) -> (commands: Vec<
        Command,
    >)
        ensures
            commands@ == iteration_commands(
                old(self).current(),
                enabled,
                old(scheduler).pairs(),
                old(scheduler).position(),
                old(scheduler).interval(),
            ),
            final(self).current() == state_for(enabled),
            final(scheduler).position() == old(scheduler).position(),
            final(scheduler).pairs() == old(scheduler).pairs(),
            final(scheduler).interval() == old(scheduler).interval(),
    {
        let ghost pairs = scheduler.pairs();
        let ghost start = scheduler.position();
        let ghost interval = scheduler.interval();
        let decision = self.observe(enabled);
        let mut commands: Vec<Command> = Vec::new();
        commands.push(Command::SetIndicator(decision.indicator));
        match decision.report {
            Some(state) => {
                commands.push(Command::Report(state));
            },
            None => {},
        }
        let ghost head = commands@;
        assert(head =~= seq![Command::SetIndicator(decision.indicator)] + report_commands(
            decision.report,
        ));
        match decision.state {
            LoopState::Running => {
                let steps = scheduler.full_pass();
                let count = steps.len();
                let mut k: usize = 0;
                while k < count
                    invariant
                        count == steps@.len(),
                        k <= count,
                        commands@ =~= head + step_commands(steps@).take(2 * k),
                    decreases count - k,
                {
                    let step = steps[k];
                    commands.push(Command::WriteDuties(step.duties));
                    commands.push(Command::WaitMicros(step.wait_micros));
                    assert(step_commands(steps@)[2 * k] == Command::WriteDuties(step.duties));
                    assert(step_commands(steps@)[2 * k + 1] == Command::WaitMicros(
                        step.wait_micros,
                    ));
                    k += 1;
                }
                assert(step_commands(steps@).take(2 * count) =~= step_commands(steps@));
            },
            LoopState::Paused => {
                commands.push(Command::WriteDuties(scheduler.idle()));
            },
        }
        commands.push(Command::WaitCycles(decision.pause_cycles));
        assert(commands@ =~= iteration_commands(
            old(self).current(),
            enabled,
            pairs,
            start,
            interval,
        ));
        commands
    }

    /// Runs one whole iteration against the shared flag itself: the flag is
    /// read once, at the top, and the iteration is the one that `iterate`
    /// gives for the value read, which is the state the loop is left in.
    ///
    /// A change of the flag during the iteration is seen by the next one.
    pub fn run_iteration(&mut self, flag: &AtomicBool, scheduler: &mut PwmScheduler) -> (commands:
        Vec<Command>)
        ensures
            commands@ == iteration_commands(
                old(self).current(),
                final(self).current() == LoopState::Running,
                old(scheduler).pairs(),
                old(scheduler).position(),
                old(scheduler).interval(),
            ),
            final(scheduler).position() == old(scheduler).position(),
            final(scheduler).pairs() == old(scheduler).pairs(),
            final(scheduler).interval() == old(scheduler).interval(),
    {
        let enabled = flag.load(Ordering::Relaxed);
        self.iterate(enabled, scheduler)
    }
}

/// One running iteration over a scheduler at the start of its table: after
/// the indicator and the report, if any, come exactly as many writes as the
/// table has pairs, in table order, each followed by a wait of the sample
/// interval, and then the pause.
pub proof fn lemma_running_iteration_streams_the_table(
    state: LoopState,
    pairs: Seq<DutyPair>,
    interval_micros: u32,
    k: int,
)
    requires
        0 <= k < pairs.len(),
    ensures
        ({
            let commands = iteration_commands(state, true, pairs, 0, interval_micros);
            let head = if state == LoopState::Running {
                1int
            } else {
                2int
            };
            &&& commands.len() == head + 2 * pairs.len() + 1
            &&& commands[0] == Command::SetIndicator(true)
            &&& state != LoopState::Running ==> commands[1] == Command::Report(LoopState::Running)
            &&& commands[head + 2 * k] == Command::WriteDuties(pairs[k])
            &&& commands[head + 2 * k + 1] == Command::WaitMicros(interval_micros)
            &&& commands[head + 2 * pairs.len()] == Command::WaitCycles(LOOP_PAUSE_CYCLES)
        }),
{
    lemma_pass_in_table_order(pairs, interval_micros, k);
    let steps = pass_from(pairs, 0, interval_micros);
    assert(step_commands(steps)[2 * k] == Command::WriteDuties(steps[k].duties));
    assert(step_commands(steps)[2 * k + 1] == Command::WaitMicros(steps[k].wait_micros));
}

/// A paused iteration asks for the indicator off, the report if the loop was
/// running, one write of zero to both channels, and the pause; the table is
/// not consulted.
pub proof fn lemma_paused_iteration_holds_zero(
    state: LoopState,
    pairs: Seq<DutyPair>,
    start: int,
    interval_micros: u32,
)
    ensures
        state == LoopState::Running ==> iteration_commands(
            state,
            false,
            pairs,
            start,
            interval_micros,
        ) == seq![
            Command::SetIndicator(false),
            Command::Report(LoopState::Paused),
            Command::WriteDuties(zero_duties()),
            Command::WaitCycles(LOOP_PAUSE_CYCLES),
        ],
        state == LoopState::Paused ==> iteration_commands(
            state,
            false,
            pairs,
            start,
            interval_micros,
        ) == seq![
            Command::SetIndicator(false),
            Command::WriteDuties(zero_duties()),
            Command::WaitCycles(LOOP_PAUSE_CYCLES),
        ],
{
    let commands = iteration_commands(state, false, pairs, start, interval_micros);
    if state == LoopState::Running {
        assert(commands =~= seq![
            Command::SetIndicator(false),
            Command::Report(LoopState::Paused),
            Command::WriteDuties(zero_duties()),
            Command::WaitCycles(LOOP_PAUSE_CYCLES),
        ]);
    } else {
        assert(commands =~= seq![
            Command::SetIndicator(false),
            Command::WriteDuties(zero_duties()),
            Command::WaitCycles(LOOP_PAUSE_CYCLES),
        ]);
    }
}

} // verus!
