//! The clock of a session: it is fed absolute timestamps and accumulates the time that passed
//! between them, ignoring any timestamp that does not move forward.

use vstd::prelude::*;

verus! {

/// The number of milliseconds in one second.
pub const MILLIS_PER_SECOND: u64 = 1000;

/// A length of time, held as a whole number of milliseconds.
///
/// In seconds it is `millis / 1000`: `whole_seconds()` seconds and `subsec_millis()`
/// thousandths of a second.
#[derive(Clone, Copy, Debug, PartialEq, Eq, Structural)]
pub struct Span {
    pub millis: u64,
}

impl Span {
    /// The span of the given number of milliseconds.
    pub fn from_millis(millis: u64) -> (span: Span)
        ensures
            span.millis == millis,
    {
        Span { millis }
    }

    /// The length in milliseconds.
    pub fn as_millis(&self) -> (millis: u64)
        ensures
            millis == self.millis,
    {
        self.millis
    }

    /// The full seconds in the span.
    pub fn whole_seconds(&self) -> (seconds: u64)
        ensures
            seconds == self.millis / 1000,
            seconds * 1000 + self.millis % 1000 == self.millis,
    {
        self.millis / MILLIS_PER_SECOND
    }

    /// What is left of the span, in milliseconds, once the full seconds are taken away.
    pub fn subsec_millis(&self) -> (millis: u64)
        ensures
            millis == self.millis % 1000,
            millis < 1000,
    {
        self.millis % MILLIS_PER_SECOND
    }
}

/// The mathematical state of a clock.
pub struct ClockState {
    /// The timestamp of the last tick that moved the clock, in milliseconds.
    pub last_update: nat,
    /// The time accumulated so far, in milliseconds.
    pub elapsed: nat,
}

impl ClockState {
    /// The time by which a tick at `now` advances the clock: nothing unless `now` lies
    /// strictly after the last update.
    pub open spec fn delta(self, now: nat) -> nat {
        if now <= self.last_update {
            0
        } else {
            (now - self.last_update) as nat
        }
    }

    /// The state after a tick at `now`.
    pub open spec fn tick(self, now: nat) -> ClockState {
        if now <= self.last_update {
            self
        } else {
            ClockState { last_update: now, elapsed: self.elapsed + self.delta(now) }
        }
    }

    /// The state after one tick at each timestamp of `ticks`, in order.
    pub open spec fn run(self, ticks: Seq<nat>) -> ClockState
        decreases ticks.len(),
    {
        if ticks.len() == 0 {
            self
        } else {
            self.run(ticks.drop_last()).tick(ticks.last())
        }
    }
}

/// Whether each timestamp of `ticks` lies strictly after the one before it.
pub open spec fn strictly_increasing(ticks: Seq<nat>) -> bool {
    forall|i: int, j: int| 0 <= i < j < ticks.len() ==> ticks[i] < ticks[j]
}

/// A clock that accumulates elapsed time from the timestamps it is fed.
#[derive(Clone, Copy, Debug)]
pub struct ClockSource {
    last_update: u64,
    elapsed: u64,
}

impl View for ClockSource {
    type V = ClockState;

    closed spec fn view(&self) -> ClockState {
        ClockState { last_update: self.last_update as nat, elapsed: self.elapsed as nat }
    }
}

impl ClockSource {
    /// No clock has accumulated more time than lies before its last update.
    #[verifier::type_invariant]
    spec fn inv(self) -> bool {
        self.elapsed <= self.last_update
    }

    /// A clock started at `now`, with no time elapsed.
    pub fn new(now: u64) -> (clock: ClockSource)
        ensures
            clock@ == (ClockState { last_update: now as nat, elapsed: 0 }),
    {
        ClockSource { last_update: now, elapsed: 0 }
    }

    /// Feeds the timestamp `now` to the clock and returns the time by which it advanced.
    ///
    /// A timestamp that is not strictly after the last update changes nothing and yields an
    /// empty span: the clock never runs backwards.
    pub fn tick(&mut self, now: u64) -> (delta: Span)
        ensures
            final(self)@ == old(self)@.tick(now as nat),
            delta.millis == old(self)@.delta(now as nat),
            now <= old(self)@.last_update ==> final(self)@ == old(self)@ && delta.millis == 0,
            now > old(self)@.last_update ==> {
                &&& delta.millis == now - old(self)@.last_update
                &&& final(self)@.last_update == now
                &&& final(self)@.elapsed == old(self)@.elapsed + delta.millis
            },
    {
        proof {
            use_type_invariant(&*self);
        }
        if now <= self.last_update {
            return Span { millis: 0 };
        }
        let millis: u64 = now - self.last_update;
        *self = ClockSource { last_update: now, elapsed: self.elapsed + millis };
        Span { millis }
    }

    /// The timestamp of the last tick that moved the clock.
    pub fn last_update(&self) -> (at: u64)
        ensures
            at == self@.last_update,
    {
        self.last_update
    }

    /// The time accumulated so far.
    pub fn elapsed(&self) -> (span: Span)
        ensures
            span.millis == self@.elapsed,
    {
        Span { millis: self.elapsed }
    }
}

/// A tick never lowers the accumulated time, and never moves the last update back.
pub proof fn lemma_tick_never_goes_back(clock: ClockState, now: nat)
    ensures
        clock.tick(now).elapsed >= clock.elapsed,
        clock.tick(now).last_update >= clock.last_update,
        clock.tick(now).elapsed == clock.elapsed + clock.delta(now),
{
}

/// Whatever timestamps a clock is fed, in whatever order, the accumulated time after the
/// first `shorter` of them is at most the accumulated time after the first `longer` of them.
pub proof fn lemma_elapsed_is_monotonic(
    clock: ClockState,
    ticks: Seq<nat>,
    shorter: int,
    longer: int,
)
    requires
        0 <= shorter <= longer <= ticks.len(),
    ensures
        clock.run(ticks.take(shorter)).elapsed <= clock.run(ticks.take(longer)).elapsed,
    decreases longer - shorter,
{
    if shorter < longer {
        lemma_elapsed_is_monotonic(clock, ticks, shorter, longer - 1);
        assert(ticks.take(longer).drop_last() == ticks.take(longer - 1));
    }
}

/// A clock that is fed timestamps which each lie strictly after the one before, the first of
/// them not before the clock's last update, accumulates exactly the time from its last
/// update to the last of the timestamps, and stands at that timestamp afterwards.
pub proof fn lemma_run_of_increasing_ticks(clock: ClockState, ticks: Seq<nat>)
    requires
        ticks.len() > 0,
        strictly_increasing(ticks),
        clock.last_update <= ticks[0],
    ensures
        clock.run(ticks).last_update == ticks.last(),
        clock.run(ticks).elapsed == clock.elapsed + (ticks.last() - clock.last_update),
    decreases ticks.len(),
{
    let front = ticks.drop_last();
    if front.len() == 0 {
    } else {
        lemma_run_of_increasing_ticks(clock, front);
    }
}

/// A clock started at the first of a run of strictly increasing timestamps and then fed all
/// of them has accumulated the distance from the first timestamp to the last.
pub proof fn lemma_elapsed_spans_first_to_last(ticks: Seq<nat>)
    requires
        ticks.len() > 0,
        strictly_increasing(ticks),
    ensures
        (ClockState { last_update: ticks[0], elapsed: 0 }).run(ticks).elapsed == ticks.last()
            - ticks[0],
        (ClockState { last_update: ticks[0], elapsed: 0 }).run(ticks).last_update
            == ticks.last(),
{
    lemma_run_of_increasing_ticks(ClockState { last_update: ticks[0], elapsed: 0 }, ticks);
}

} // verus!
