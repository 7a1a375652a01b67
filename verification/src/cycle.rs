//! The draw / input / tick cycle as a state machine without I/O.
//!
//! The cycle hands out a [`Request`] for each piece of terminal work and is
//! told its [`Outcome`]. Everything here is a function of plain values: what
//! the application and the clock answered comes in as arguments.

use vstd::prelude::*;
use crossterm::event::KeyEvent;
use crate::event::Event;
use crate::span::Span;

verus! {

/// The terminal work that a running cycle is waiting for.
#[derive(Clone, Copy, Debug, PartialEq, Eq, Structural)]
pub enum Pending {
    /// The application is being drawn.
    Render,
    /// One input event is being read.
    Read,
    /// Input is being awaited for a bounded time.
    Poll,
}

/// Where a cycle stands.
#[derive(Clone, Copy, Debug, PartialEq, Eq, Structural)]
pub enum Phase {
    /// Constructed, never run.
    Idle,
    /// Running, with one request outstanding.
    Running(Pending),
    /// The application asked to stop.
    Terminated,
    /// A piece of terminal work failed.
    Faulted,
}

/// What the cycle asks of its caller next.
#[derive(Clone, Copy, Debug, PartialEq, Eq, Structural)]
pub enum Request {
    /// Draw the application and answer [`Outcome::Rendered`].
    Render,
    /// Block until one input event arrives and answer [`Outcome::Input`].
    Read,
    /// Wait for input for at most this long and answer [`Outcome::Ready`] or
    /// [`Outcome::TimedOut`].
    Poll(Span),
    /// Nothing: the application asked to stop and the run has succeeded.
    Finish,
    /// Nothing: the run has failed.
    Abort,
}

/// What became of the outstanding request.
#[derive(Debug)]
pub enum Outcome {
    /// The application was drawn.
    Rendered,
    /// This event was read.
    Input(Event),
    /// Input became available within the time allowed.
    Ready,
    /// The time allowed ran out with no input.
    TimedOut,
    /// The terminal reported an error.
    Failed,
}

/// What the cycle does on an outcome, before it asks for anything else.
#[derive(Clone, Copy, Debug)]
pub enum Step {
    /// The drawing is done: start to wait for input.
    Wait,
    /// Input is available: read it.
    Fetch,
    /// The wait is over: hand the key event, if there is one, to the
    /// application, deliver a tick if one is due, then ask the application
    /// whether to go on.
    Settle(Option<KeyEvent>),
    /// The cycle has ended with success and stays so.
    Rest,
    /// The cycle fails, or has failed and stays so.
    Fault,
}

/// The step that an outcome calls for. `ticked` says whether the cycle runs
/// with a tick interval.
///
/// An outcome that does not answer the outstanding request is a fault, and
/// so is any outcome while the cycle has not been started. A cycle that has
/// stopped stays as it is. Of the events read, only key events are passed
/// on.
pub open spec fn step_of(ticked: bool, phase: Phase, outcome: Outcome) -> Step {
    match phase {
        Phase::Idle => Step::Fault,
        Phase::Terminated => Step::Rest,
        Phase::Faulted => Step::Fault,
        Phase::Running(Pending::Render) => match outcome {
            Outcome::Rendered => Step::Wait,
            _ => Step::Fault,
        },
        Phase::Running(Pending::Read) => match outcome {
            Outcome::Input(event) => Step::Settle(event.key()),
            _ => Step::Fault,
        },
        Phase::Running(Pending::Poll) => match outcome {
            Outcome::Ready if ticked => Step::Fetch,
            Outcome::TimedOut if ticked => Step::Settle(None),
            _ => Step::Fault,
        },
    }
}

/// The time left to wait for input: the interval less what has passed since
/// the last tick, and nothing where the interval or more has passed. Both
/// lengths are in nanoseconds.
pub open spec fn remaining(interval: nat, elapsed: nat) -> nat {
    if interval >= elapsed {
        (interval - elapsed) as nat
    } else {
        0
    }
}

/// The time that the clock shows to have passed between two readings:
/// nothing where the later reading is not the greater.
pub open spec fn passed(since: nat, now: nat) -> nat {
    if now >= since {
        (now - since) as nat
    } else {
        0
    }
}

/// Whether a tick is due: what has passed since the last tick has reached
/// the interval.
pub open spec fn due(interval: nat, elapsed: nat) -> bool {
    elapsed >= interval
}

/// Whether the request is the one that goes with the phase: the work that a
/// running cycle waits for, or the end that a stopped cycle has come to.
pub open spec fn asks(request: Request, phase: Phase) -> bool {
    match phase {
        Phase::Idle => false,
        Phase::Running(Pending::Render) => request is Render,
        Phase::Running(Pending::Read) => request is Read,
        Phase::Running(Pending::Poll) => request is Poll,
        Phase::Terminated => request is Finish,
        Phase::Faulted => request is Abort,
    }
}

/// The phase after the application was asked whether it wants to stop.
pub open spec fn concluded(closed: bool) -> Phase {
    if closed {
        Phase::Terminated
    } else {
        Phase::Running(Pending::Render)
    }
}

/// Decides the step for an outcome.
pub fn step(ticked: bool, phase: Phase, outcome: Outcome) -> (s: Step)
    ensures
        s == step_of(ticked, phase, outcome),
{
    match phase {
        Phase::Idle => Step::Fault,
        Phase::Terminated => Step::Rest,
        Phase::Faulted => Step::Fault,
        Phase::Running(Pending::Render) => match outcome {
            Outcome::Rendered => Step::Wait,
            _ => Step::Fault,
        },
        Phase::Running(Pending::Read) => match outcome {
            Outcome::Input(event) => Step::Settle(event.into_key()),
            _ => Step::Fault,
        },
        Phase::Running(Pending::Poll) => {
            if !ticked {
                Step::Fault
            } else {
                match outcome {
                    Outcome::Ready => Step::Fetch,
                    Outcome::TimedOut => Step::Settle(None),
                    _ => Step::Fault,
                }
            }
        },
    }
}

/// Ends an iteration: the cycle stops with success if the application is
/// closed, and draws again if it is not.
pub fn conclude(closed: bool) -> (next: (Phase, Request))
    ensures
        next.0 == concluded(closed),
        asks(next.1, next.0),
{
    if closed {
        (Phase::Terminated, Request::Finish)
    } else {
        (Phase::Running(Pending::Render), Request::Render)
    }
}

/// How long to wait for input in ticked mode, `elapsed` being the time since
/// the last tick: what is left of the interval, and no time at all once the
/// interval has run out. The wait is never negative and never longer than
/// the interval.
pub fn remaining_wait(interval: Span, elapsed: Span) -> (wait: Span)
    ensures
        wait@ == remaining(interval@, elapsed@),
        wait@ <= interval@,
        elapsed@ >= interval@ ==> wait@ == 0,
{
    interval.saturating_sub(&elapsed)
}

/// Whether a tick is due, `elapsed` being the time since the last tick. With
/// an empty interval a tick is always due.
pub fn tick_due(interval: Span, elapsed: Span) -> (is_due: bool)
    ensures
        is_due == due(interval@, elapsed@),
        interval@ == 0 ==> is_due,
{
    elapsed.at_least(&interval)
}

/// Of the events read, only key events are handed on, in either mode and in
/// every phase: where a step hands a key event to the application, that key
/// event is the event that was read.
pub proof fn lemma_only_keys_are_handed_on(ticked: bool, phase: Phase, outcome: Outcome)
    ensures
        step_of(ticked, phase, outcome) matches Step::Settle(Some(key)) ==> outcome
            == Outcome::Input(Event::Key(key)),
        outcome matches Outcome::Input(event) && !(event is Key) ==> !(step_of(
            ticked,
            phase,
            outcome,
        ) matches Step::Settle(Some(_))),
{
}

/// A cycle that has stopped stays stopped: no outcome takes it out of
/// success or of failure, and none takes a cycle that was never started
/// anywhere but into failure.
pub proof fn lemma_stopped_stays_stopped(ticked: bool, phase: Phase, outcome: Outcome)
    ensures
        phase is Terminated ==> step_of(ticked, phase, outcome) is Rest,
        phase is Faulted || phase is Idle ==> step_of(ticked, phase, outcome) is Fault,
        outcome is Failed && !(phase is Terminated) ==> step_of(ticked, phase, outcome) is Fault,
{
}

/// A wait that runs its full time is followed by a tick: if the wait was
/// computed when `before` had passed since the last tick, and the tick is
/// looked for no sooner than that wait later, the tick is due.
pub proof fn lemma_full_wait_brings_tick(interval: nat, before: nat, after: nat)
    requires
        after >= before + remaining(interval, before),
    ensures
        due(interval, after),
{
}

/// No wait outlasts the interval, and the wait and the time already passed
/// make up the interval exactly until it has run out.
pub proof fn lemma_remaining_bounds(interval: nat, elapsed: nat)
    ensures
        0 <= remaining(interval, elapsed) <= interval,
        elapsed <= interval ==> remaining(interval, elapsed) + elapsed == interval,
        elapsed >= interval ==> remaining(interval, elapsed) == 0,
{
}

/// The clock readings of one iteration of the ticked cycle, in nanoseconds
/// since some fixed moment.
pub struct Lap {
    /// The reading when the cycle looked whether a tick was due.
    pub checked: nat,
    /// The reading after the tick, which counts as the time of the last
    /// tick from then on. For a lap without a tick, any reading between its
    /// check and the next lap's will do.
    pub reset: nat,
}

/// Whether the clock never ran backwards from `start` through the laps.
pub open spec fn in_order(start: nat, laps: Seq<Lap>) -> bool
    decreases laps.len(),
{
    if laps.len() == 0 {
        true
    } else {
        &&& in_order(start, laps.drop_last())
        &&& laps.last().checked <= laps.last().reset
        &&& if laps.len() == 1 {
            start <= laps.last().checked
        } else {
            laps[laps.len() - 2].reset <= laps.last().checked
        }
    }
}

/// The time of the last tick after the laps, the cycle having been started
/// at `start`.
pub open spec fn last_tick_after(interval: nat, start: nat, laps: Seq<Lap>) -> nat
    decreases laps.len(),
{
    if laps.len() == 0 {
        start
    } else {
        let last = last_tick_after(interval, start, laps.drop_last());
        if due(interval, passed(last, laps.last().checked)) {
            laps.last().reset
        } else {
            last
        }
    }
}

/// The number of ticks delivered in the laps, the cycle having been started
/// at `start`.
pub open spec fn ticks_after(interval: nat, start: nat, laps: Seq<Lap>) -> nat
    decreases laps.len(),
{
    if laps.len() == 0 {
        0
    } else {
        let last = last_tick_after(interval, start, laps.drop_last());
        let before = ticks_after(interval, start, laps.drop_last());
        if due(interval, passed(last, laps.last().checked)) {
            before + 1
        } else {
            before
        }
    }
}

/// The time by which the ticks of the laps came late, all told: for each
/// tick, what lies between the moment at which it fell due, one interval
/// after the tick before it, and the reading that counts as its own time.
pub open spec fn lateness_after(interval: nat, start: nat, laps: Seq<Lap>) -> nat
    decreases laps.len(),
{
    if laps.len() == 0 {
        0
    } else {
        let last = last_tick_after(interval, start, laps.drop_last());
        let before = lateness_after(interval, start, laps.drop_last());
        if due(interval, passed(last, laps.last().checked)) {
            before + passed(last + interval, laps.last().reset)
        } else {
            before
        }
    }
}

/// The ticks account for the time. After any number of laps, the time from
/// the start to the last tick is one interval for each tick delivered, and
/// the lateness of the ticks besides. There is at most one tick to a lap,
/// and the last tick is no later than the last reading.
pub proof fn lemma_ticks_account_for_the_time(interval: nat, start: nat, laps: Seq<Lap>)
    requires
        in_order(start, laps),
    ensures
        ticks_after(interval, start, laps) <= laps.len(),
        start + ticks_after(interval, start, laps) * interval + lateness_after(
            interval,
            start,
            laps,
        ) == last_tick_after(interval, start, laps),
        laps.len() > 0 ==> last_tick_after(interval, start, laps) <= laps.last().reset,
        laps.len() == 0 ==> last_tick_after(interval, start, laps) == start,
    decreases laps.len(),
{
    if laps.len() > 0 {
        let earlier = laps.drop_last();
        lemma_ticks_account_for_the_time(interval, start, earlier);
        let last = last_tick_after(interval, start, earlier);
        let before = ticks_after(interval, start, earlier);
        if earlier.len() > 0 {
            assert(earlier.last() == laps[laps.len() - 2]);
        }
        assert(last <= laps.last().checked);
        assert((before + 1) * interval == before * interval + interval) by (nonlinear_arith);
    }
}

/// Ticks never outrun the clock. However the iterations fall, each tick
/// takes a full interval of its own: the ticks delivered, times the
/// interval, fit between the start and the last tick.
pub proof fn lemma_ticks_never_outrun_the_clock(interval: nat, start: nat, laps: Seq<Lap>)
    requires
        in_order(start, laps),
    ensures
        start + ticks_after(interval, start, laps) * interval <= last_tick_after(
            interval,
            start,
            laps,
        ),
{
    lemma_ticks_account_for_the_time(interval, start, laps);
}

/// An application that stays open until `n` intervals have passed gets at
/// most `n` ticks. If the last tick before the final lap fell within the
/// first `n` intervals after the start, so that the cycle went into one more
/// lap, that lap brings the count to `n` at most.
pub proof fn lemma_open_for_n_intervals_at_most_n_ticks(
    interval: nat,
    start: nat,
    laps: Seq<Lap>,
    n: nat,
)
    requires
        in_order(start, laps),
        laps.len() > 0 ==> last_tick_after(interval, start, laps.drop_last()) < start + n
            * interval,
    ensures
        ticks_after(interval, start, laps) <= n,
{
    if laps.len() > 0 {
        let earlier = laps.drop_last();
        lemma_ticks_never_outrun_the_clock(interval, start, earlier);
        let before = ticks_after(interval, start, earlier);
        assert(before * interval < n * interval);
        assert(before < n) by (nonlinear_arith)
            requires
                before * interval < n * interval,
        ;
    }
}

/// A cycle whose ticks come on time misses none. If no tick came late and
/// none is due at the reading `now`, then the ticks delivered are as many as
/// the whole intervals that have passed since the start: that many
/// intervals fit into the time passed, and one more does not.
pub proof fn lemma_punctual_cycle_misses_no_tick(
    interval: nat,
    start: nat,
    laps: Seq<Lap>,
    now: nat,
)
    requires
        in_order(start, laps),
        lateness_after(interval, start, laps) == 0,
        last_tick_after(interval, start, laps) <= now,
        !due(interval, passed(last_tick_after(interval, start, laps), now)),
    ensures
        start + ticks_after(interval, start, laps) * interval <= now,
        now < start + (ticks_after(interval, start, laps) + 1) * interval,
{
    lemma_ticks_account_for_the_time(interval, start, laps);
    let ticks = ticks_after(interval, start, laps);
    assert((ticks + 1) * interval == ticks * interval + interval) by (nonlinear_arith);
}

} // verus!
