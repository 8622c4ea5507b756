//! Dead-time-compensated complementary duty cycles and the table that holds
//! one period of them.
//!
//! The sine itself is evaluated by the caller: a raw main-channel duty is the
//! sine sample mapped onto `0..=FULL_SCALE`. Everything after that point is
//! integer arithmetic and lives here.

use vstd::prelude::*;

verus! {

/// The duty value that stands for 100% on-time.
pub const FULL_SCALE: u16 = 65535;

/// One sample of the waveform: the on-times of the two complementary channels.
#[derive(Clone, Copy, Debug, PartialEq, Eq, Structural)]
pub struct DutyPair {
    pub main: u16,
    pub comp: u16,
}

/// Why a table could not be built.
#[derive(Clone, Copy, Debug, PartialEq, Eq, Structural)]
pub enum TableError {
    /// A table needs at least one sample.
    Empty,
    /// The pair at `index` cannot be the result of applying the dead time to
    /// any raw duty.
    NotComplementary { index: usize },
}

/// `x - d`, floored at zero.
pub open spec fn floor_sub(x: int, d: int) -> int {
    if x >= d {
        x - d
    } else {
        0
    }
}

/// The part of the dead time that could not be taken from `x` because `x`
/// was already smaller than it.
pub open spec fn blanked(x: int, d: int) -> int {
    if x < d {
        d - x
    } else {
        0
    }
}

/// The main-channel duty stored for a raw main duty.
pub open spec fn main_duty_of(raw_main: u16, dead_time: u16) -> int {
    floor_sub(raw_main as int, dead_time as int)
}

/// The complementary-channel duty stored for a raw main duty: what is left of
/// full scale, less the dead time.
pub open spec fn comp_duty_of(raw_main: u16, dead_time: u16) -> int {
    floor_sub(FULL_SCALE - raw_main, dead_time as int)
}

/// The pair stored for a raw main duty.
pub open spec fn duty_pair_of(raw_main: u16, dead_time: u16) -> DutyPair {
    DutyPair {
        main: main_duty_of(raw_main, dead_time) as u16,
        comp: comp_duty_of(raw_main, dead_time) as u16,
    }
}

/// The table stored for a period of raw main duties.
pub open spec fn generated(raw_main: Seq<u16>, dead_time: u16) -> Seq<DutyPair> {
    Seq::new(raw_main.len(), |i: int| duty_pair_of(raw_main[i], dead_time))
}

/// The index that mirrors `i` in a period of `count` samples.
pub open spec fn mirror_index(i: int, count: int) -> int {
    (count - i) % count
}

/// Whether `pair` is what some raw duty becomes under `dead_time`.
pub open spec fn is_complementary(pair: DutyPair, dead_time: u16) -> bool {
    exists|raw_main: u16| #[trigger] duty_pair_of(raw_main, dead_time) == pair
}

/// Whether every pair of `pairs` is complementary under `dead_time`.
pub open spec fn all_complementary(pairs: Seq<DutyPair>, dead_time: u16) -> bool {
    forall|i: int| 0 <= i < pairs.len() ==> is_complementary(#[trigger] pairs[i], dead_time)
}

/// Whether the pair at `index` is the first that is not complementary.
pub open spec fn is_first_offender(pairs: Seq<DutyPair>, dead_time: u16, index: int) -> bool {
    &&& 0 <= index < pairs.len()
    &&& !is_complementary(pairs[index], dead_time)
    &&& all_complementary(pairs.take(index), dead_time)
}

/// Both channels off.
pub open spec fn zero_duties() -> DutyPair {
    DutyPair { main: 0, comp: 0 }
}

/// Computes the stored pair for one raw main-channel duty.
pub fn duty_pair(raw_main: u16, dead_time: u16) -> (pair: DutyPair)
    ensures
        pair == duty_pair_of(raw_main, dead_time),
        pair.main == main_duty_of(raw_main, dead_time),
        pair.comp == comp_duty_of(raw_main, dead_time),
{
    let raw_comp: u16 = FULL_SCALE.saturating_sub(raw_main);
    DutyPair { main: raw_main.saturating_sub(dead_time), comp: raw_comp.saturating_sub(dead_time) }
}

/// Decides whether a pair is complementary under a dead time.
pub fn check_complementary(pair: DutyPair, dead_time: u16) -> (ok: bool)
    ensures
        ok == is_complementary(pair, dead_time),
{
    let full: u32 = FULL_SCALE as u32;
    let main: u32 = pair.main as u32;
    let comp: u32 = pair.comp as u32;
    let dead: u32 = dead_time as u32;
    if main > 0 {
        // The raw duty can only have been `main + dead`.
        let ok = main + dead <= full && comp == (full - main - dead).saturating_sub(dead);
        proof {
            if ok {
                let raw: u16 = (main + dead) as u16;
                assert(duty_pair_of(raw, dead_time) == pair);
            }
        }
        ok
    } else {
        // The main channel was blanked: the raw duty was at most `dead`.
        let ok = comp + dead <= full && comp + 2 * dead >= full;
        proof {
            if ok {
                let raw: u16 = (full - dead - comp) as u16;
                assert(duty_pair_of(raw, dead_time) == pair);
            }
        }
        ok
    }
}

/// One period of duty pairs, fixed once built.
///
/// It is never empty, and every pair in it is complementary under the
/// table's dead time.
#[derive(Debug)]
pub struct SampleTable {
    dead_time: u16,
    pairs: Vec<DutyPair>,
}

impl View for SampleTable {
    type V = Seq<DutyPair>;

    closed spec fn view(&self) -> Seq<DutyPair> {
        self.pairs@
    }
}

/// What `SampleTable::generate` returns for a period of raw duties: the empty
/// period is refused, every other period gives its generated table.
pub open spec fn generate_result(
    raw_main: Seq<u16>,
    dead_time: u16,
    result: Result<SampleTable, TableError>,
) -> bool {
    if raw_main.len() == 0 {
        result == Err::<SampleTable, TableError>(TableError::Empty)
    } else {
        &&& result is Ok
        &&& result->Ok_0@ == generated(raw_main, dead_time)
        &&& result->Ok_0.spec_dead_time() == dead_time
        &&& result->Ok_0.well_formed()
    }
}

/// What `SampleTable::from_pairs` returns: the table of exactly these pairs
/// if there is at least one and all are complementary, and otherwise the
/// error that names what is wrong, for a wrong pair the first one.
pub open spec fn from_pairs_result(
    pairs: Seq<DutyPair>,
    dead_time: u16,
    result: Result<SampleTable, TableError>,
) -> bool {
    match result {
        Ok(table) => {
            &&& pairs.len() > 0
            &&& all_complementary(pairs, dead_time)
            &&& table@ == pairs
            &&& table.spec_dead_time() == dead_time
            &&& table.well_formed()
        },
        Err(TableError::Empty) => pairs.len() == 0,
        Err(TableError::NotComplementary { index }) => is_first_offender(
            pairs,
            dead_time,
            index as int,
        ),
    }
}

impl SampleTable {
    #[verifier::type_invariant]
    spec fn inv(&self) -> bool {
        &&& self.pairs@.len() > 0
        &&& all_complementary(self.pairs@, self.dead_time)
    }

    /// The dead time the table was built for.
    pub closed spec fn spec_dead_time(&self) -> u16 {
        self.dead_time
    }

    /// What every table satisfies: it has at least one pair, and each is
    /// complementary under the table's dead time.
    pub open spec fn well_formed(&self) -> bool {
        &&& self@.len() > 0
        &&& all_complementary(self@, self.spec_dead_time())
    }

    /// Builds the table for one period of raw main-channel duties.
    ///
    /// The number of samples is the length of `raw_main`; an empty period is
    /// rejected.
    pub fn generate(raw_main: &[u16], dead_time: u16) -> (result: Result<SampleTable, TableError>)
        ensures
            generate_result(raw_main@, dead_time, result),
    {
        let count = raw_main.len();
        if count == 0 {
            return Err(TableError::Empty);
        }
        let mut pairs: Vec<DutyPair> = Vec::new();
        let mut i: usize = 0;
        while i < count
            invariant
                count == raw_main@.len(),
                i <= count,
                pairs@.len() == i,
                forall|j: int|
                    0 <= j < i ==> #[trigger] pairs@[j] == duty_pair_of(raw_main@[j], dead_time),
            decreases count - i,
        {
            pairs.push(duty_pair(raw_main[i], dead_time));
            i += 1;
        }
        assert(pairs@ =~= generated(raw_main@, dead_time));
        proof {
            lemma_generated_is_complementary(raw_main@, dead_time);
        }
        Ok(SampleTable { dead_time, pairs })
    }

    /// Takes over a table computed ahead of time, after checking it.
    ///
    /// The pairs are accepted exactly when there is at least one and each is
    /// complementary under `dead_time`; otherwise the error names what is
    /// wrong, and for a wrong pair the first one.
    pub fn from_pairs(pairs: Vec<DutyPair>, dead_time: u16) -> (result: Result<
        SampleTable,
        TableError,
    >)
        ensures
            from_pairs_result(pairs@, dead_time, result),
    {
        let count = pairs.len();
        if count == 0 {
            return Err(TableError::Empty);
        }
        let mut i: usize = 0;
        while i < count
            invariant
                count == pairs@.len(),
                i <= count,
                all_complementary(pairs@.take(i as int), dead_time),
            decreases count - i,
        {
            if !check_complementary(pairs[i], dead_time) {
                return Err(TableError::NotComplementary { index: i });
            }
            assert forall|j: int| 0 <= j < i + 1 implies is_complementary(
                #[trigger] pairs@.take(i + 1)[j],
                dead_time,
            ) by {
                if j < i {
                    assert(pairs@.take(i as int)[j] == pairs@[j]);
                }
            }
            i += 1;
        }
        assert(pairs@.take(count as int) =~= pairs@);
        Ok(SampleTable { dead_time, pairs })
    }

    /// The number of samples in one period; never zero.
    pub fn len(&self) -> (count: usize)
        ensures
            count == self@.len(),
            count > 0,
            self.well_formed(),
    {
        proof {
            use_type_invariant(self);
        }
        self.pairs.len()
    }

    /// The dead time the table was built for.
    pub fn dead_time(&self) -> (dead_time: u16)
        ensures
            dead_time == self.spec_dead_time(),
    {
        self.dead_time
    }

    /// The pair at `index`, which must lie within the period.
    pub fn pair_at(&self, index: usize) -> (pair: DutyPair)
        requires
            index < self@.len(),
        ensures
            pair == self@[index as int],
            is_complementary(pair, self.spec_dead_time()),
    {
        proof {
            use_type_invariant(self);
        }
        self.pairs[index]
    }

    /// The pair at `index`, or `None` past the end.
    pub fn get(&self, index: usize) -> (pair: Option<DutyPair>)
        ensures
            self.well_formed(),
            index < self@.len() ==> pair == Some(self@[index as int]),
            index >= self@.len() ==> pair is None,
    {
        proof {
            use_type_invariant(self);
        }
        if index < self.pairs.len() {
            Some(self.pairs[index])
        } else {
            None
        }
    }
}

/// Every generated pair is complementary under the dead time it was generated
/// with.
pub proof fn lemma_generated_is_complementary(raw_main: Seq<u16>, dead_time: u16)
    ensures
        all_complementary(generated(raw_main, dead_time), dead_time),
{
    let table = generated(raw_main, dead_time);
    assert forall|i: int| 0 <= i < table.len() implies is_complementary(
        #[trigger] table[i],
        dead_time,
    ) by {
        assert(duty_pair_of(raw_main[i], dead_time) == table[i]);
    }
}

/// Every stored duty lies between zero and full scale, and is exactly the
/// raw duty less the dead time, floored at zero: nothing is lost when the
/// value is stored in sixteen bits.
pub proof fn lemma_duties_within_full_scale(raw_main: Seq<u16>, dead_time: u16, i: int)
    requires
        0 <= i < raw_main.len(),
    ensures
        0 <= generated(raw_main, dead_time)[i].main <= FULL_SCALE,
        0 <= generated(raw_main, dead_time)[i].comp <= FULL_SCALE,
        generated(raw_main, dead_time)[i].main == main_duty_of(raw_main[i], dead_time),
        generated(raw_main, dead_time)[i].comp == comp_duty_of(raw_main[i], dead_time),
{
}

/// The dead-time notch: the two stored duties of a sample add up to full
/// scale less twice the dead time, plus whatever the dead time could not take
/// from a channel that was already below it. That excess is at most the dead
/// time per channel, and zero when neither raw duty is below the dead time.
pub proof fn lemma_dead_time_notch(raw_main: Seq<u16>, dead_time: u16, i: int)
    requires
        0 <= i < raw_main.len(),
    ensures
        ({
            let pair = generated(raw_main, dead_time)[i];
            let excess = blanked(raw_main[i] as int, dead_time as int) + blanked(
                FULL_SCALE - raw_main[i],
                dead_time as int,
            );
            &&& pair.main + pair.comp == FULL_SCALE - 2 * dead_time + excess
            &&& 0 <= excess <= 2 * dead_time
            &&& 2 * dead_time <= FULL_SCALE ==> excess <= dead_time
            &&& dead_time <= raw_main[i] <= FULL_SCALE - dead_time ==> excess == 0
        }),
{
}

/// The dead-time notch, read off the stored pairs alone: where both channels
/// of a complementary pair are on, their duties add up to exactly full scale
/// less twice the dead time; where one is blanked, the other stays at least
/// one dead time below full scale.
pub proof fn lemma_complementary_pair_keeps_notch(pair: DutyPair, dead_time: u16)
    requires
        is_complementary(pair, dead_time),
    ensures
        pair.main > 0 && pair.comp > 0 ==> pair.main + pair.comp == FULL_SCALE - 2 * dead_time,
        pair.main + pair.comp <= FULL_SCALE - dead_time,
{
    let raw_main = choose|raw_main: u16| #[trigger] duty_pair_of(raw_main, dead_time) == pair;
    assert(duty_pair_of(raw_main, dead_time) == pair);
}

/// Building a table is a function of its arguments: two results for the same
/// raw duties and dead time are both the same refusal or hold the same pairs.
pub proof fn lemma_generate_is_deterministic(
    raw_main: Seq<u16>,
    dead_time: u16,
    first: Result<SampleTable, TableError>,
    second: Result<SampleTable, TableError>,
)
    requires
        generate_result(raw_main, dead_time, first),
        generate_result(raw_main, dead_time, second),
    ensures
        first is Ok <==> second is Ok,
        first is Err ==> first == second,
        first is Ok ==> first->Ok_0@ == second->Ok_0@ && first->Ok_0.spec_dead_time()
            == second->Ok_0.spec_dead_time(),
{
}

/// Mirror symmetry: if the raw duty at `i` and the raw duty at the mirrored
/// index `(N - i) mod N` add up to full scale within `tolerance`, as the
/// samples of a sine do, then the main duty stored at `i` and the
/// complementary duty stored at the mirrored index differ by at most
/// `tolerance`.
pub proof fn lemma_mirror_symmetry(raw_main: Seq<u16>, dead_time: u16, i: int, tolerance: int)
    requires
        0 <= i < raw_main.len(),
        -tolerance <= raw_main[i] + raw_main[mirror_index(i, raw_main.len() as int)] - FULL_SCALE
            <= tolerance,
    ensures
        0 <= mirror_index(i, raw_main.len() as int) < raw_main.len(),
        -tolerance <= generated(raw_main, dead_time)[i].main - generated(
            raw_main,
            dead_time,
        )[mirror_index(i, raw_main.len() as int)].comp <= tolerance,
{
}

/// Blanking: where the dead time is at least a raw duty, the stored duty is
/// exactly zero, for either channel.
pub proof fn lemma_blanked_duty_is_zero(raw_main: Seq<u16>, dead_time: u16, i: int)
    requires
        0 <= i < raw_main.len(),
    ensures
        dead_time >= raw_main[i] ==> generated(raw_main, dead_time)[i].main == 0,
        dead_time >= FULL_SCALE - raw_main[i] ==> generated(raw_main, dead_time)[i].comp == 0,
{
}

} // verus!
