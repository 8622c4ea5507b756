//! The sample scheduler: walks the table one sample at a time, at a fixed
//! interval, and wraps at the end of the period.
//!
//! The scheduler decides what is written and how long to wait; writing to the
//! channels and waiting are the caller's.

use crate::table::{zero_duties, DutyPair, SampleTable};
use vstd::prelude::*;

verus! {

/// Microseconds in a second.
pub const MICROS_PER_SECOND: u32 = 1_000_000;

/// Why a scheduler could not be set up.
#[derive(Clone, Copy, Debug, PartialEq, Eq, Structural)]
pub enum ScheduleError {
    /// A sine of zero hertz has no sample interval.
    ZeroFrequency,
}

/// What one step of the scheduler asks for: write `duties` to the two
/// channels, then wait `wait_micros` microseconds.
#[derive(Clone, Copy, Debug, PartialEq, Eq, Structural)]
pub struct SampleStep {
    pub duties: DutyPair,
    pub wait_micros: u32,
}

/// The time between two samples, in whole microseconds.
pub open spec fn interval_micros_of(sine_freq_hz: int, sample_count: int) -> int {
    MICROS_PER_SECOND as int / (sine_freq_hz * sample_count)
}

/// The index that follows `index` in a period of `count` samples.
pub open spec fn next_index(index: int, count: int) -> int {
    (index + 1) % count
}

/// The steps of one full pass over `pairs` that starts at index `start`.
pub open spec fn pass_from(pairs: Seq<DutyPair>, start: int, interval_micros: u32) -> Seq<
    SampleStep,
> {
    Seq::new(
        pairs.len(),
        |k: int|
            SampleStep {
                duties: pairs[(start + k) % (pairs.len() as int)],
                wait_micros: interval_micros,
            },
    )
}

/// Computes the time between two samples, in whole microseconds; there is
/// none for a frequency or a sample count of zero.
pub fn sample_interval_micros(sine_freq_hz: u32, sample_count: usize) -> (interval: Option<u32>)
    ensures
        interval is None <==> sine_freq_hz == 0 || sample_count == 0,
        interval matches Some(micros) ==> micros == interval_micros_of(
            sine_freq_hz as int,
            sample_count as int,
        ),
{
    if sine_freq_hz == 0 || sample_count == 0 {
        return None;
    }
    if sample_count > MICROS_PER_SECOND as usize {
        assert(MICROS_PER_SECOND as int / (sine_freq_hz * sample_count) == 0) by (nonlinear_arith)
            requires
                sine_freq_hz >= 1,
                sample_count > MICROS_PER_SECOND,
        ;
        return Some(0);
    }
    assert(sine_freq_hz * sample_count <= 0xffff_ffff * 1_000_000) by (nonlinear_arith)
        requires
            sine_freq_hz <= 0xffff_ffff,
            sample_count <= 1_000_000,
    ;
    assert(sine_freq_hz * sample_count >= 1) by (nonlinear_arith)
        requires
            sine_freq_hz >= 1,
            sample_count >= 1,
    ;
    let samples_per_second: u64 = sine_freq_hz as u64 * sample_count as u64;
    let micros: u64 = MICROS_PER_SECOND as u64 / samples_per_second;
    assert(micros <= MICROS_PER_SECOND) by (nonlinear_arith)
        requires
            micros == MICROS_PER_SECOND as int / samples_per_second as int,
            samples_per_second >= 1,
    ;
    Some(micros as u32)
}

/// Streams a sample table: the current index into it and the interval
/// between samples.
#[derive(Debug)]
pub struct PwmScheduler {
    table: SampleTable,
    index: usize,
    interval_micros: u32,
}

impl PwmScheduler {
    #[verifier::type_invariant]
    spec fn inv(&self) -> bool {
        self.index < self.table@.len()
    }

    /// The pairs of the table being streamed.
    pub closed spec fn pairs(&self) -> Seq<DutyPair> {
        self.table@
    }

    /// The index of the sample that the next step writes.
    pub closed spec fn position(&self) -> int {
        self.index as int
    }

    /// The wait after each sample, in microseconds.
    pub closed spec fn interval(&self) -> u32 {
        self.interval_micros
    }

    /// Sets up a scheduler at the start of `table`, for a sine of
    /// `sine_freq_hz` hertz.
    pub fn new(table: SampleTable, sine_freq_hz: u32) -> (result: Result<
        PwmScheduler,
        ScheduleError,
    >)
        ensures
            result is Err <==> sine_freq_hz == 0,
            result matches Ok(scheduler) ==> scheduler.pairs() == table@,
            result matches Ok(scheduler) ==> scheduler.position() == 0,
            result matches Ok(scheduler) ==> scheduler.interval() == interval_micros_of(
                sine_freq_hz as int,
                table@.len() as int,
            ),
    {
        match sample_interval_micros(sine_freq_hz, table.len()) {
            Some(interval_micros) => Ok(PwmScheduler { table, index: 0, interval_micros }),
            None => Err(ScheduleError::ZeroFrequency),
        }
    }

    /// The number of samples in one period; never zero.
    pub fn sample_count(&self) -> (count: usize)
        ensures
            count == self.pairs().len(),
            count > 0,
    {
        self.table.len()
    }

    /// The index of the sample that the next step writes.
    pub fn current_index(&self) -> (index: usize)
        ensures
            index == self.position(),
            index < self.pairs().len(),
    {
        proof {
            use_type_invariant(self);
        }
        self.index
    }

    /// The wait after each sample, in microseconds.
    pub fn interval_micros(&self) -> (micros: u32)
        ensures
            micros == self.interval(),
    {
        self.interval_micros
    }

    /// Takes the pair at the current index, both channels from the same
    /// entry, and moves the index on by one, back to zero at the end of the
    /// period.
    pub fn advance_one_sample(&mut self) -> (step: SampleStep)
        ensures
            0 <= old(self).position() < old(self).pairs().len(),
            step.duties == old(self).pairs()[old(self).position()],
            step.wait_micros == old(self).interval(),
            final(self).position() == next_index(
                old(self).position(),
                old(self).pairs().len() as int,
            ),
            final(self).pairs() == old(self).pairs(),
            final(self).interval() == old(self).interval(),
    {
        proof {
            use_type_invariant(&*self);
        }
        let count = self.table.len();
        let duties = self.table.pair_at(self.index);
        let index = self.index;
        proof {
            lemma_next_index(index as int, count as int);
        }
        self.index = if index + 1 == count {
            0
        } else {
            index + 1
        };
        SampleStep { duties, wait_micros: self.interval_micros }
    }

    /// The output while generation is off: both channels at zero. The table
    /// and the index are left alone.
    pub fn idle(&self) -> (duties: DutyPair)
        ensures
            duties == zero_duties(),
    {
        DutyPair { main: 0, comp: 0 }
    }

    /// Runs one full pass: as many steps as the table has samples, in table
    /// order from the current index, each followed by the sample interval.
    /// The index ends where it started, so the next pass follows without a
    /// gap.
    pub fn full_pass(&mut self) -> (steps: Vec<SampleStep>)
        ensures
            steps@ == pass_from(old(self).pairs(), old(self).position(), old(self).interval()),
            steps@.len() == old(self).pairs().len(),
            final(self).position() == old(self).position(),
            final(self).pairs() == old(self).pairs(),
            final(self).interval() == old(self).interval(),
    {
        proof {
            use_type_invariant(&*self);
        }
        let count = self.table.len();
        let ghost start = self.position();
        let ghost pairs = self.pairs();
        let ghost interval = self.interval();
        let mut steps: Vec<SampleStep> = Vec::new();
        let mut done: usize = 0;
        proof {
            lemma_wrapped_sum(start, 0, count as int);
        }
        while done < count
            invariant
                count == pairs.len(),
                0 <= start < count,
                done <= count,
                self.pairs() == pairs,
                self.interval() == interval,
                self.position() == (start + done) % (count as int),
                steps@.len() == done,
                forall|k: int|
                    0 <= k < done ==> #[trigger] steps@[k] == (SampleStep {
                        duties: pairs[(start + k) % (count as int)],
                        wait_micros: interval,
                    }),
            decreases count - done,
        {
            let ghost before = self.position();
            let step = self.advance_one_sample();
            proof {
                lemma_next_index(before, count as int);
                lemma_wrapped_sum(start, done as int, count as int);
                lemma_wrapped_sum(start, done + 1, count as int);
            }
            steps.push(step);
            done += 1;
        }
        proof {
            lemma_wrapped_sum(start, count as int, count as int);
        }
        assert(steps@ =~= pass_from(pairs, start, interval));
        steps
    }
}

/// A full pass from the start of the table takes the pairs in table order,
/// every one exactly once, each followed by the sample interval.
pub proof fn lemma_pass_in_table_order(pairs: Seq<DutyPair>, interval_micros: u32, k: int)
    requires
        0 <= k < pairs.len(),
    ensures
        pass_from(pairs, 0, interval_micros).len() == pairs.len(),
        pass_from(pairs, 0, interval_micros)[k] == (SampleStep {
            duties: pairs[k],
            wait_micros: interval_micros,
        }),
{
    lemma_wrapped_sum(0, k, pairs.len() as int);
}

/// Moving on by one from a valid index either steps or wraps to zero.
pub proof fn lemma_next_index(index: int, count: int)
    requires
        0 <= index < count,
    ensures
        index + 1 == count ==> next_index(index, count) == 0,
        index + 1 < count ==> next_index(index, count) == index + 1,
        0 <= next_index(index, count) < count,
{
    lemma_wrapped_sum(index, 1, count);
}

/// An index moved on by at most one period wraps at most once.
pub proof fn lemma_wrapped_sum(start: int, steps: int, count: int)
    requires
        0 <= start < count,
        0 <= steps <= count,
    ensures
        start + steps < count ==> (start + steps) % count == start + steps,
        start + steps >= count ==> (start + steps) % count == start + steps - count,
{
    let sum = start + steps;
    if sum < count {
        assert(sum % count == sum) by (nonlinear_arith)
            requires
                0 <= sum < count,
        ;
    } else {
        assert(sum % count == sum - count) by (nonlinear_arith)
            requires
                count <= sum < 2 * count,
        ;
    }
}

} // verus!
