//! The time-of-day reactor: turns real-time-clock edges into readings that a
//! task can await.

use vstd::prelude::*;
use crate::task::{Poll, TaskWaker};

verus! {

/// Bit of status register C that must be clear for a clock interrupt to count
/// as an edge, unless a reactor is made with a filter of its own.
pub const EDGE_BIT: u8 = 3;

/// The hour, minute and second registers as the clock holds them: two
/// nibbles to a byte.
#[derive(Debug, Clone, Copy, PartialEq, Eq, Structural)]
pub struct RawTime {
    pub hours: u8,
    pub minutes: u8,
    pub seconds: u8,
}

/// The number a packed register byte stands for here: its high nibble plus
/// its low nibble.
pub open spec fn decoded(byte: u8) -> u8 {
    ((byte >> 4) + (byte & 0xF)) as u8
}

/// The (hour, minute, second) triple that the three registers decode to.
pub open spec fn decoded_time(raw: RawTime) -> (u8, u8, u8) {
    (decoded(raw.hours), decoded(raw.minutes), decoded(raw.seconds))
}

/// A register byte decodes to the sum of its two hexadecimal digits, which is
/// at most 30; it is not read as two decimal digits.
pub proof fn law_decoded_is_digit_sum(byte: u8)
    ensures
        decoded(byte) == byte / 16 + byte % 16,
        decoded(byte) <= 30,
{
    assert((byte >> 4) == byte / 16 && (byte & 0xF) == byte % 16) by (bit_vector);
}

/// Decodes one packed register byte.
pub fn decode(byte: u8) -> (value: u8)
    ensures
        value == decoded(byte),
{
    let high: u8 = byte >> 4;
    let low: u8 = byte & 0xF;
    assert(high <= 15 && low <= 15) by (bit_vector)
        requires
            high == byte >> 4,
            low == byte & 0xF,
    ;
    high + low
}

/// Decodes the three time registers into (hour, minute, second).
pub fn decode_time(raw: RawTime) -> (time: (u8, u8, u8))
    ensures
        time == decoded_time(raw),
{
    (decode(raw.hours), decode(raw.minutes), decode(raw.seconds))
}

/// Whether bit `bit` of `status` is clear.
pub open spec fn bit_clear(status: u8, bit: u8) -> bool {
    status & (1u8 << bit) == 0
}

/// The test that tells a valid clock edge from a spurious interrupt: one
/// designated bit of a status byte, which must be clear.
#[derive(Debug, Clone, Copy)]
pub struct EdgeFilter {
    bit: u8,
}

impl EdgeFilter {
    #[verifier::type_invariant]
    spec fn is_bit_of_byte(self) -> bool {
        self.bit < 8
    }

    /// The index of the designated bit.
    pub closed spec fn bit(self) -> u8 {
        self.bit
    }

    /// Whether an interrupt that comes with `status` passes the filter.
    pub open spec fn admits(self, status: u8) -> bool {
        bit_clear(status, self.bit())
    }

    /// The filter on bit `bit`, or `None` if a byte has no such bit.
    pub fn new(bit: u8) -> (made: Option<EdgeFilter>)
        ensures
            made is Some <==> bit < 8,
            made matches Some(filter) ==> filter.bit() == bit,
    {
        if bit < 8 {
            Some(EdgeFilter { bit })
        } else {
            None
        }
    }

    /// The filter on [`EDGE_BIT`].
    pub fn standard() -> (filter: EdgeFilter)
        ensures
            filter.bit() == EDGE_BIT,
    {
        EdgeFilter { bit: EDGE_BIT }
    }

    /// Whether `status` passes the filter: whether the designated bit is clear.
    pub fn passes(&self, status: u8) -> (clear: bool)
        ensures
            clear == self.admits(status),
    {
        proof {
            use_type_invariant(self);
        }
        let mask: u8 = 1u8 << self.bit;
        status & mask == 0
    }
}

/// What a reactor holds, as contracts see it.
pub struct TimerState {
    /// The ready flag: an edge has arrived that no reading has used up yet.
    pub ready: bool,
    /// The continuation slot: the waker registered last, until an edge or a
    /// successful re-check takes it out.
    pub waker: Option<TaskWaker>,
    /// How many valid edges the reactor has observed so far.
    pub edges: nat,
    /// How many readings the reactor has handed out so far.
    pub readings: nat,
    /// The filter that tells valid edges from spurious interrupts.
    pub filter: EdgeFilter,
}

impl TimerState {
    /// No edge is used twice: together with the edge that the ready flag still
    /// holds, the readings handed out never outnumber the edges observed.
    pub open spec fn wf(self) -> bool {
        self.readings + (if self.ready { 1nat } else { 0nat }) <= self.edges
    }

    /// The state of a reactor that has seen nothing yet: flag clear, slot
    /// empty.
    pub open spec fn idle(filter: EdgeFilter) -> TimerState {
        TimerState { ready: false, waker: None, edges: 0, readings: 0, filter }
    }

    /// Whether an interrupt that comes with `status` counts as an edge.
    pub open spec fn admits(self, status: u8) -> bool {
        self.filter.admits(status)
    }

    /// The state after a valid edge: the flag is set and the slot is empty.
    pub open spec fn after_edge(self) -> TimerState {
        TimerState { ready: true, waker: None, edges: self.edges + 1, ..self }
    }

    /// The state after an interrupt that comes with `status`: that after an
    /// edge if the status passes the filter, the same state if not.
    pub open spec fn after_interrupt(self, status: u8) -> TimerState {
        if self.admits(status) {
            self.after_edge()
        } else {
            self
        }
    }

    /// The waker that an interrupt with `status` invokes: the one in the
    /// slot, if the interrupt is a valid edge and the slot holds one.
    pub open spec fn woken_by(self, status: u8) -> Option<TaskWaker> {
        if self.admits(status) {
            self.waker
        } else {
            None
        }
    }

    /// The waker that a valid edge invokes in this state: the one in the
    /// slot, if any.
    pub open spec fn woken_by_edge(self) -> Option<TaskWaker> {
        self.waker
    }

    /// The state after the fast path of a poll: a set flag is cleared and
    /// counted as a reading; the slot is left alone.
    pub open spec fn after_poll_ready(self) -> TimerState {
        if self.ready {
            TimerState { ready: false, readings: self.readings + 1, ..self }
        } else {
            self
        }
    }

    /// The state after `waker` is registered in the slot.
    pub open spec fn after_register(self, waker: TaskWaker) -> TimerState {
        TimerState { waker: Some(waker), ..self }
    }

    /// The state after the re-check that follows a registration: a set flag is
    /// cleared and counted as a reading, and the slot is emptied.
    pub open spec fn after_poll_registered(self) -> TimerState {
        if self.ready {
            TimerState { ready: false, waker: None, readings: self.readings + 1, ..self }
        } else {
            self
        }
    }

    /// The state after a whole poll: fast path, then registration and
    /// re-check if the fast path found nothing.
    pub open spec fn after_poll_next(self, waker: TaskWaker) -> TimerState {
        if self.ready {
            self.after_poll_ready()
        } else {
            self.after_register(waker).after_poll_registered()
        }
    }

    /// The state in which a task is parked after a poll found or did not
    /// find a reading and the task wants another: the flag is clear and
    /// `waker` is in the slot.
    pub open spec fn after_park(self, waker: TaskWaker) -> TimerState {
        self.after_poll_next(waker).after_poll_next(waker)
    }

    /// What a check of the flag yields in this state, with `raw` in the time
    /// registers.
    pub open spec fn reading(self, raw: RawTime) -> Poll<(u8, u8, u8)> {
        if self.ready {
            Poll::Ready(decoded_time(raw))
        } else {
            Poll::Pending
        }
    }
}

/// The reactor. It holds the ready flag, which the clock interrupt sets and a
/// poll clears, and the single continuation slot.
pub struct Timer {
    ready: bool,
    waker: Option<TaskWaker>,
    filter: EdgeFilter,
    edges: Ghost<nat>,
    readings: Ghost<nat>,
}

impl View for Timer {
    type V = TimerState;

    closed spec fn view(&self) -> TimerState {
        TimerState {
            ready: self.ready,
            waker: self.waker,
            edges: self.edges@,
            readings: self.readings@,
            filter: self.filter,
        }
    }
}

impl Timer {
    /// Validity of a reactor: that of its state.
    pub open spec fn wf(&self) -> bool {
        self@.wf()
    }

    /// A reactor that filters edges on [`EDGE_BIT`]: flag clear, slot empty.
    pub fn new() -> (timer: Timer)
        ensures
            timer.wf(),
            timer@.filter.bit() == EDGE_BIT,
            timer@ == TimerState::idle(timer@.filter),
    {
        Timer {
            ready: false,
            waker: None,
            filter: EdgeFilter::standard(),
            edges: Ghost(0),
            readings: Ghost(0),
        }
    }

    /// A reactor that filters edges with `filter`: flag clear, slot empty.
    pub fn with_filter(filter: EdgeFilter) -> (timer: Timer)
        ensures
            timer.wf(),
            timer@ == TimerState::idle(filter),
    {
        Timer { ready: false, waker: None, filter, edges: Ghost(0), readings: Ghost(0) }
    }

    /// Whether an edge is waiting to be read.
    pub fn is_ready(&self) -> (ready: bool)
        ensures
            ready == self@.ready,
    {
        self.ready
    }

    /// The waker in the continuation slot, if any.
    pub fn registered(&self) -> (waker: Option<TaskWaker>)
        ensures
            waker == self@.waker,
    {
        self.waker
    }

    /// The fast path of a poll. If the ready flag is set it is cleared and the
    /// reading decoded from `raw` is returned; otherwise nothing changes.
    /// `raw` is what the caller read from the time registers; it is looked at
    /// only when the flag is set.
    pub fn poll_ready(&mut self, raw: RawTime) -> (got: Poll<(u8, u8, u8)>)
        requires
            old(self).wf(),
        ensures
            final(self).wf(),
            final(self)@ == old(self)@.after_poll_ready(),
            got == old(self)@.reading(raw),
    {
        if self.ready {
            self.ready = false;
            self.readings = Ghost((self.readings@ + 1) as nat);
            Poll::Ready(decode_time(raw))
        } else {
            Poll::Pending
        }
    }

    /// Puts `waker` into the continuation slot, in place of what was there.
    pub fn register(&mut self, waker: TaskWaker)
        requires
            old(self).wf(),
        ensures
            final(self).wf(),
            final(self)@ == old(self)@.after_register(waker),
    {
        self.waker = Some(waker);
    }

    /// The re-check that follows a registration. If the ready flag is set by
    /// now, the slot is emptied, the flag is cleared and the reading decoded
    /// from `raw` is returned; otherwise nothing changes and the caller is
    /// suspended.
    pub fn poll_registered(&mut self, raw: RawTime) -> (got: Poll<(u8, u8, u8)>)
        requires
            old(self).wf(),
        ensures
            final(self).wf(),
            final(self)@ == old(self)@.after_poll_registered(),
            got == old(self)@.reading(raw),
    {
        if self.ready {
            self.waker = None;
            self.ready = false;
            self.readings = Ghost((self.readings@ + 1) as nat);
            Poll::Ready(decode_time(raw))
        } else {
            Poll::Pending
        }
    }

    /// One poll of the reactor for the task that `waker` wakes: the fast
    /// path, and if that finds nothing, registration followed by the
    /// re-check. Returns a reading exactly if the ready flag was set; if not,
    /// the caller is suspended with its waker in the slot.
    pub fn poll_next(&mut self, waker: TaskWaker, raw: RawTime) -> (got: Poll<(u8, u8, u8)>)
        requires
            old(self).wf(),
        ensures
            final(self).wf(),
            final(self)@ == old(self)@.after_poll_next(waker),
            got == old(self)@.reading(raw),
            !final(self)@.ready,
            got is Pending ==> final(self)@.waker == Some(waker),
    {
        match self.poll_ready(raw) {
            Poll::Ready(time) => Poll::Ready(time),
            Poll::Pending => {
                self.register(waker);
                self.poll_registered(raw)
            },
        }
    }
}

/// The clock interrupt's producer. `status` is the clock's status register
/// as the handler read it. If it passes the reactor's filter the interrupt is
/// a valid edge: the ready flag is set, the continuation slot is emptied and
/// the waker that was in it is returned for the caller to invoke. Otherwise
/// nothing changes.
pub fn tick(timer: &mut Timer, status: u8) -> (woken: Option<TaskWaker>)
    requires
        old(timer).wf(),
    ensures
        final(timer).wf(),
        final(timer)@ == old(timer)@.after_interrupt(status),
        woken == old(timer)@.woken_by(status),
{
    if timer.filter.passes(status) {
        let woken: Option<TaskWaker> = timer.waker;
        timer.waker = None;
        if !timer.ready {
            timer.ready = true;
        }
        timer.edges = Ghost(timer.edges@ + 1);
        woken
    } else {
        None
    }
}

/// Every step of the reactor keeps it valid, so the readings handed out never
/// outnumber the valid edges observed.
pub proof fn law_readings_never_outnumber_edges(state: TimerState, waker: TaskWaker)
    requires
        state.wf(),
    ensures
        state.readings <= state.edges,
        state.after_edge().wf(),
        state.after_poll_ready().wf(),
        state.after_register(waker).wf(),
        state.after_poll_registered().wf(),
        state.after_poll_next(waker).wf(),
{
}

/// No edge is delivered twice: a poll that yields a reading uses up exactly
/// one observed edge, and whatever a poll yielded, a second poll that no edge
/// precedes yields nothing and suspends.
pub proof fn law_edge_is_delivered_once(
    state: TimerState,
    first: TaskWaker,
    second: TaskWaker,
    raw: RawTime,
    raw_again: RawTime,
)
    requires
        state.wf(),
    ensures
        state.reading(raw) is Ready ==> state.ready && state.after_poll_next(first).readings
            == state.readings + 1,
        state.reading(raw) is Pending ==> state.after_poll_next(first).readings == state.readings,
        state.after_poll_next(first).reading(raw_again) is Pending,
        state.after_poll_next(first).after_poll_next(second).readings == state.after_poll_next(
            first,
        ).readings,
{
}

/// No wakeup is lost, wherever an edge lands relative to a poll that found
/// the ready flag clear on its fast path.
///
/// If the edge lands between the fast path and the registration, or between
/// the registration and the re-check, the re-check sees the flag and the
/// poll returns the reading. If it lands after the poll has suspended the
/// caller, the edge invokes the caller's waker and the next poll returns
/// the reading.
pub proof fn law_no_lost_wakeup(state: TimerState, waker: TaskWaker, raw: RawTime)
    requires
        !state.ready,
    ensures
        state.after_poll_ready() == state,
        state.after_edge().after_register(waker).reading(raw) == Poll::Ready(decoded_time(raw)),
        state.after_register(waker).after_edge().reading(raw) == Poll::Ready(decoded_time(raw)),
        state.after_register(waker).woken_by_edge() == Some(waker),
        state.reading(raw) is Pending,
        state.after_poll_next(waker).woken_by_edge() == Some(waker),
        state.after_poll_next(waker).after_edge().reading(raw) == Poll::Ready(decoded_time(raw)),
{
}

/// One resumption of the task that shows the time of day for ever: it polls
/// the reactor until it is suspended. Returns the reading to show, if the
/// ready flag was set, and leaves the task parked: flag clear, `waker` in the
/// slot, so that the next valid edge wakes it.
pub fn print_time(timer: &mut Timer, waker: TaskWaker, raw: RawTime) -> (shown: Option<(u8, u8, u8)>)
    requires
        old(timer).wf(),
    ensures
        final(timer).wf(),
        final(timer)@ == old(timer)@.after_park(waker),
        shown == (if old(timer)@.ready { Some(decoded_time(raw)) } else { None }),
        !final(timer)@.ready,
        final(timer)@.waker == Some(waker),
{
    match timer.poll_next(waker, raw) {
        Poll::Ready(time) => {
            let again: Poll<(u8, u8, u8)> = timer.poll_next(waker, raw);
            assert(again is Pending);
            Some(time)
        },
        Poll::Pending => {
            assert(timer@ == old(timer)@.after_park(waker));
            None
        },
    }
}

} // verus!
