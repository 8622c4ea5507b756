//! The button-edge handler: takes the button over from the foreground once,
//! and turns each serviced falling edge into one toggle of the enable flag.
//!
//! The handler decides and keeps the flag; reading and clearing the interrupt
//! and waiting out the debounce time are the caller's.

use core::sync::atomic::AtomicBool;
use core::sync::atomic::Ordering;
use vstd::prelude::*;

verus! {

/// How long the handler stays busy after a serviced edge, in clock cycles.
pub const DEBOUNCE_CYCLES: u32 = 50_000;

/// Why the handler has no button.
#[derive(Clone, Copy, Debug, PartialEq, Eq, Structural)]
pub enum HandoffError {
    /// The hand-off slot was empty on first entry: nothing was placed in it
    /// before the interrupt was unmasked.
    SlotEmpty,
}

/// What a serviced edge asks for: store `store` in the enable flag, clear
/// the pending interrupt, then stay busy for `debounce_cycles`.
#[derive(Clone, Copy, Debug, PartialEq, Eq, Structural)]
pub struct Toggle {
    pub store: bool,
    pub debounce_cycles: u32,
}

/// What an invocation asks for, given the flag as it was read and whether
/// the button reports a pending edge.
pub open spec fn toggle_for(enabled: bool, edge_pending: bool) -> Option<Toggle> {
    if edge_pending {
        Some(Toggle { store: !enabled, debounce_cycles: DEBOUNCE_CYCLES })
    } else {
        None
    }
}

/// The flag after `toggles` toggles.
pub open spec fn flag_after(enabled: bool, toggles: nat) -> bool {
    if toggles % 2 == 1 {
        !enabled
    } else {
        enabled
    }
}

/// Decides one invocation: a pending edge flips the flag, anything else
/// leaves everything alone.
pub fn toggle_on_edge(enabled: bool, edge_pending: bool) -> (toggle: Option<Toggle>)
    ensures
        toggle == toggle_for(enabled, edge_pending),
{
    if edge_pending {
        Some(Toggle { store: !enabled, debounce_cycles: DEBOUNCE_CYCLES })
    } else {
        None
    }
}

/// The interrupt side of the button: owns the button resource once it has
/// claimed it, and never gives it back.
#[derive(Debug)]
pub struct ButtonEdgeHandler<T> {
    button: Option<T>,
}

impl<T> ButtonEdgeHandler<T> {
    /// The button the handler owns, if it has claimed one.
    pub closed spec fn owned(&self) -> Option<T> {
        self.button
    }

    /// A handler that has not claimed its button yet.
    pub fn new() -> (handler: Self)
        ensures
            handler.owned() is None,
    {
        ButtonEdgeHandler { button: None }
    }

    /// Whether the handler owns its button.
    pub fn owns_button(&self) -> (owns: bool)
        ensures
            owns == (self.owned() is Some),
    {
        self.button.is_some()
    }

    /// Makes sure the handler owns its button. On first entry the button is
    /// taken out of the hand-off slot, which is left empty; afterwards the
    /// slot is not touched. Fails only if there is nothing to take.
    ///
    /// The caller keeps interrupts off while the slot is borrowed.
    pub fn claim(&mut self, slot: &mut Option<T>) -> (result: Result<(), HandoffError>)
        ensures
            old(self).owned() is Some ==> final(self).owned() == old(self).owned(),
            old(self).owned() is Some ==> *final(slot) == *old(slot),
            old(self).owned() is None ==> final(self).owned() == *old(slot),
            old(self).owned() is None ==> *final(slot) is None,
            result is Ok <==> final(self).owned() is Some,
    {
        if self.button.is_none() {
            self.button = slot.take();
        }
        if self.button.is_some() {
            Ok(())
        } else {
            Err(HandoffError::SlotEmpty)
        }
    }

    /// The owned button, to read its interrupt status.
    pub fn button(&self) -> (button: Option<&T>)
        ensures
            button is Some <==> self.owned() is Some,
            button is Some ==> *button->0 == self.owned()->0,
    {
        self.button.as_ref()
    }

    /// The owned button, to clear its pending interrupt. The handler still
    /// owns it afterwards.
    pub fn button_mut(&mut self) -> (button: Option<&mut T>)
        ensures
            button is Some <==> old(self).owned() is Some,
            button is None ==> final(self).owned() is None,
            button is Some ==> *button->0 == old(self).owned()->0,
            button is Some ==> final(self).owned() == Some(*final(button->0)),
    {
        self.button.as_mut()
    }

    /// Decides one invocation: a handler that owns its button and finds an
    /// edge pending flips the flag; otherwise nothing is to be done.
    pub fn service(&self, enabled: bool, edge_pending: bool) -> (toggle: Option<Toggle>)
        ensures
            self.owned() is Some ==> toggle == toggle_for(enabled, edge_pending),
            self.owned() is None ==> toggle is None,
    {
        if self.button.is_some() {
            toggle_on_edge(enabled, edge_pending)
        } else {
            None
        }
    }

    /// Runs one invocation against the shared flag itself: reads it, decides,
    /// and stores the flipped value if an edge is serviced. What is left to
    /// the caller then is to clear the pending interrupt and to stay busy for
    /// the debounce time.
    ///
    /// The handler is the flag's only writer, so the load and the store need
    /// not be one operation.
    pub fn on_interrupt(&self, flag: &AtomicBool, edge_pending: bool) -> (toggle: Option<Toggle>)
        ensures
            toggle is Some <==> (self.owned() is Some && edge_pending),
            toggle matches Some(flip) ==> flip.debounce_cycles == DEBOUNCE_CYCLES,
    {
        let enabled = flag.load(Ordering::Relaxed);
        let toggle = self.service(enabled, edge_pending);
        match toggle {
            Some(flip) => {
                flag.store(flip.store, Ordering::Relaxed);
            },
            None => {},
        }
        toggle
    }
}

/// Whether an edge at `at_cycle` reaches the handler, given when the handler
/// last serviced one: edges that arrive while the handler is still busy with
/// the previous one are lost.
pub open spec fn edge_reaches_handler(last_serviced: Option<u64>, at_cycle: u64) -> bool {
    match last_serviced {
        None => true,
        Some(last) => at_cycle - last >= DEBOUNCE_CYCLES,
    }
}

/// How many of `edge_cycles` reach the handler, in the order given.
pub open spec fn toggles_in(last_serviced: Option<u64>, edge_cycles: Seq<u64>) -> nat
    decreases edge_cycles.len(),
{
    if edge_cycles.len() == 0 {
        0
    } else if edge_reaches_handler(last_serviced, edge_cycles[0]) {
        1 + toggles_in(Some(edge_cycles[0]), edge_cycles.drop_first())
    } else {
        toggles_in(last_serviced, edge_cycles.drop_first())
    }
}

/// Whether each edge comes at least a debounce time after the one before.
pub open spec fn individually_debounced(edge_cycles: Seq<u64>) -> bool {
    forall|i: int|
        0 < i < edge_cycles.len() ==> (#[trigger] edge_cycles[i]) - edge_cycles[i - 1]
            >= DEBOUNCE_CYCLES
}

/// The button line over simulated time: remembers when the handler last
/// serviced an edge, and so which later edges it misses.
#[derive(Debug)]
pub struct DebouncedLine {
    last_serviced: Option<u64>,
}

impl DebouncedLine {
    /// The cycle at which the handler last serviced an edge.
    pub closed spec fn last(&self) -> Option<u64> {
        self.last_serviced
    }

    /// A line on which no edge has been serviced yet.
    pub fn new() -> (line: Self)
        ensures
            line.last() is None,
    {
        DebouncedLine { last_serviced: None }
    }

    /// A falling edge arrives at `at_cycle`. Says whether the handler sees
    /// it pending; if so, the handler is busy from then on for the debounce
    /// time.
    pub fn deliver(&mut self, at_cycle: u64) -> (pending: bool)
        ensures
            pending == edge_reaches_handler(old(self).last(), at_cycle),
            pending ==> final(self).last() == Some(at_cycle),
            !pending ==> final(self).last() == old(self).last(),
    {
        let pending = match self.last_serviced {
            None => true,
            Some(last) => at_cycle >= last && at_cycle - last >= DEBOUNCE_CYCLES as u64,
        };
        if pending {
            self.last_serviced = Some(at_cycle);
        }
        pending
    }
}

/// How a run of simulated edges ended.
#[derive(Clone, Copy, Debug, PartialEq, Eq, Structural)]
pub struct Replay {
    /// The enable flag after the last edge.
    pub enabled: bool,
    /// How many edges the handler serviced.
    pub toggles: usize,
}

/// Replays falling edges at the given cycles against a handler that owns its
/// button, starting from a quiet line and the flag `enabled`.
pub fn replay_edges(enabled: bool, edge_cycles: &[u64]) -> (replay: Replay)
    ensures
        replay.toggles == toggles_in(None, edge_cycles@),
        replay.enabled == flag_after(enabled, toggles_in(None, edge_cycles@)),
{
    let count = edge_cycles.len();
    let mut line = DebouncedLine::new();
    let mut flag = enabled;
    let mut toggles: usize = 0;
    let mut i: usize = 0;
    assert(edge_cycles@.skip(0) =~= edge_cycles@);
    while i < count
        invariant
            count == edge_cycles@.len(),
            i <= count,
            toggles <= i,
            toggles_in(None, edge_cycles@) == toggles + toggles_in(
                line.last(),
                edge_cycles@.skip(i as int),
            ),
            flag == flag_after(enabled, toggles as nat),
        decreases count - i,
    {
        let ghost rest = edge_cycles@.skip(i as int);
        assert(rest.len() > 0 && rest[0] == edge_cycles@[i as int]);
        assert(rest.drop_first() =~= edge_cycles@.skip(i + 1));
        let pending = line.deliver(edge_cycles[i]);
        match toggle_on_edge(flag, pending) {
            Some(toggle) => {
                flag = toggle.store;
                toggles += 1;
            },
            None => {},
        }
        i += 1;
    }
    assert(edge_cycles@.skip(count as int).len() == 0);
    Replay { enabled: flag, toggles }
}

/// Presses that are each debounced on their own all reach the handler: `K` of
/// them toggle the flag `K` times, and from paused the flag ends up set
/// exactly when `K` is odd.
pub proof fn lemma_debounced_presses_all_toggle(edge_cycles: Seq<u64>)
    requires
        individually_debounced(edge_cycles),
    ensures
        toggles_in(None, edge_cycles) == edge_cycles.len(),
        flag_after(false, toggles_in(None, edge_cycles)) == (edge_cycles.len() % 2 == 1),
{
    lemma_debounced_presses_from(None, edge_cycles);
}

/// Debounced presses all reach a handler that is free for the first of them.
pub proof fn lemma_debounced_presses_from(last_serviced: Option<u64>, edge_cycles: Seq<u64>)
    requires
        individually_debounced(edge_cycles),
        edge_cycles.len() > 0 ==> edge_reaches_handler(last_serviced, edge_cycles[0]),
    ensures
        toggles_in(last_serviced, edge_cycles) == edge_cycles.len(),
    decreases edge_cycles.len(),
{
    if edge_cycles.len() > 0 {
        let rest = edge_cycles.drop_first();
        assert forall|i: int| 0 < i < rest.len() implies (#[trigger] rest[i]) - rest[i - 1]
            >= DEBOUNCE_CYCLES by {
            assert(rest[i] == edge_cycles[i + 1]);
            assert(rest[i - 1] == edge_cycles[i + 1 - 1]);
        }
        if rest.len() > 0 {
            assert(rest[0] == edge_cycles[1]);
            assert(edge_cycles[1] - edge_cycles[1 - 1] >= DEBOUNCE_CYCLES);
        }
        lemma_debounced_presses_from(Some(edge_cycles[0]), rest);
    }
}

/// Two edges less than a debounce time apart give one toggle, not two.
pub proof fn lemma_bounce_collapses(enabled: bool, first: u64, second: u64)
    requires
        second - first < DEBOUNCE_CYCLES,
    ensures
        toggles_in(None, seq![first, second]) == 1,
        flag_after(enabled, toggles_in(None, seq![first, second])) == !enabled,
{
    lemma_burst_collapses(seq![first, second]);
}

/// A burst of edges that all come less than a debounce time after the first
/// gives exactly one toggle.
pub proof fn lemma_burst_collapses(edge_cycles: Seq<u64>)
    requires
        edge_cycles.len() > 0,
        forall|i: int|
            0 < i < edge_cycles.len() ==> (#[trigger] edge_cycles[i]) - edge_cycles[0]
                < DEBOUNCE_CYCLES,
    ensures
        toggles_in(None, edge_cycles) == 1,
{
    lemma_bounces_are_lost(edge_cycles[0], edge_cycles.drop_first());
}

/// Edges that all come less than a debounce time after a serviced one are
/// lost.
pub proof fn lemma_bounces_are_lost(serviced: u64, edge_cycles: Seq<u64>)
    requires
        forall|i: int|
            0 <= i < edge_cycles.len() ==> (#[trigger] edge_cycles[i]) - serviced
                < DEBOUNCE_CYCLES,
    ensures
        toggles_in(Some(serviced), edge_cycles) == 0,
    decreases edge_cycles.len(),
{
    if edge_cycles.len() > 0 {
        let rest = edge_cycles.drop_first();
        assert(edge_cycles[0] - serviced < DEBOUNCE_CYCLES);
        assert forall|i: int| 0 <= i < rest.len() implies (#[trigger] rest[i]) - serviced
            < DEBOUNCE_CYCLES by {
            assert(rest[i] == edge_cycles[i + 1]);
        }
        lemma_bounces_are_lost(serviced, rest);
    }
}

} // verus!
