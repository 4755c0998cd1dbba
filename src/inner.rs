use vstd::prelude::*;

use crate::error::TimeError;
use crate::instant::time_since;
use crate::span::{max_span, saturate, span_of, Span, NANOS_PER_MILLI};
use crate::ticks::{
    clamp_tickrate, effective_tickrate, lemma_tick_reached, lemma_ticks_in_nanos,
    lemma_wait_reaches_tick, since_last_tick, span_result, tick_length, tick_start, ticks_elapsed,
    ticks_in, time_for_ticks, time_since_last_tick, time_until_next_tick, time_until_tick,
    until_next_tick, until_tick,
};
use vstd::arithmetic::div_mod::lemma_div_by_multiple;
use std::time::Instant;

verus! {

broadcast use {crate::span::Span::lemma_span_of, crate::span::Span::lemma_span_bounded};

/// Whether a clock runs, and how long it has run.
#[derive(Clone, Copy, Debug)]
pub enum EventSyncState {
    /// Running since the reading `since`, after running for `carried` before it.
    Running { since: Instant, carried: Span },
    /// Stopped, after running for the span it holds.
    Paused(Span),
}

/// The state of one clock: how it runs, and the length of its ticks in milliseconds.
#[derive(Clone, Copy, Debug)]
pub struct InnerEventSync {
    /// Whether the clock runs, and the time it has run.
    pub state: EventSyncState,
    /// The length of a tick in milliseconds; at least one in a well-formed state.
    pub tickrate: u32,
}

impl InnerEventSync {
    /// A tick lasts at least a millisecond.
    pub open spec fn wf(self) -> bool {
        self.tickrate >= 1
    }

    /// The clock is stopped.
    pub open spec fn paused(self) -> bool {
        self.state is Paused
    }

    /// The time the clock has run, where `running_for` has passed since it last started.
    pub open spec fn elapsed_at(self, running_for: nat) -> nat {
        match self.state {
            EventSyncState::Running { carried, .. } => saturate(carried@ + running_for),
            EventSyncState::Paused(d) => d@,
        }
    }

    /// The clock stopped after `running_for` since it last started; a stopped clock stays as it is.
    pub open spec fn paused_after(self, running_for: nat) -> InnerEventSync {
        match self.state {
            EventSyncState::Running { carried, .. } => InnerEventSync {
                state: EventSyncState::Paused(span_of(carried@ + running_for)),
                ..self
            },
            EventSyncState::Paused(_) => self,
        }
    }

    /// The clock started again at the reading `at`, keeping the time it has run; a running clock
    /// stays as it is.
    pub open spec fn resumed_at(self, at: Instant) -> InnerEventSync {
        match self.state {
            EventSyncState::Running { .. } => self,
            EventSyncState::Paused(d) => InnerEventSync {
                state: EventSyncState::Running { since: at, carried: d },
                ..self
            },
        }
    }

    /// The clock started afresh at the reading `at`, with no time run.
    pub open spec fn restarted_at(self, at: Instant) -> InnerEventSync {
        InnerEventSync { state: EventSyncState::Running { since: at, carried: span_of(0) }, ..self }
    }

    /// The clock stopped with no time run.
    pub open spec fn restarted_paused(self) -> InnerEventSync {
        InnerEventSync { state: EventSyncState::Paused(span_of(0)), ..self }
    }

    /// Two states alike in all but the reading a running clock started from.
    pub open spec fn alike(self, other: InnerEventSync) -> bool {
        &&& self.tickrate == other.tickrate
        &&& match (self.state, other.state) {
            (EventSyncState::Paused(a), EventSyncState::Paused(b)) => a == b,
            (
                EventSyncState::Running { carried: a, .. },
                EventSyncState::Running { carried: b, .. },
            ) => a == b,
            _ => false,
        }
    }

    /// A clock with the given tick rate that has run for `elapsed`, paused or running since `at`.
    pub open spec fn created(tickrate: u32, elapsed: Span, is_paused: bool, at: Instant) -> InnerEventSync {
        InnerEventSync {
            state: if is_paused {
                EventSyncState::Paused(elapsed)
            } else {
                EventSyncState::Running { since: at, carried: elapsed }
            },
            tickrate: effective_tickrate(tickrate),
        }
    }

    /// The time run, or the error for a paused clock.
    pub open spec fn since_started_at(self, running_for: nat) -> Result<nat, TimeError> {
        if self.paused() {
            Err(TimeError::EventSyncPaused)
        } else {
            Ok(self.elapsed_at(running_for))
        }
    }

    /// The whole ticks run, at most `u64::MAX`.
    pub open spec fn ticks_count(self, running_for: nat) -> u64 {
        let t = ticks_in(self.elapsed_at(running_for), self.tickrate as nat);
        if t <= u64::MAX {
            t as u64
        } else {
            u64::MAX
        }
    }

    /// The whole ticks run (at most `u64::MAX`), or the error for a paused clock.
    pub open spec fn ticks_at(self, running_for: nat) -> Result<u64, TimeError> {
        if self.paused() {
            Err(TimeError::EventSyncPaused)
        } else {
            Ok(self.ticks_count(running_for))
        }
    }

    /// The time since the last whole tick, or the error for a paused clock.
    pub open spec fn since_last_tick_at(self, running_for: nat) -> Result<nat, TimeError> {
        if self.paused() {
            Err(TimeError::EventSyncPaused)
        } else {
            Ok(since_last_tick(self.elapsed_at(running_for), self.tickrate as nat))
        }
    }

    /// The time until the next tick, or the error for a paused clock.
    pub open spec fn until_next_tick_at(self, running_for: nat) -> Result<nat, TimeError> {
        if self.paused() {
            Err(TimeError::EventSyncPaused)
        } else {
            Ok(until_next_tick(self.elapsed_at(running_for), self.tickrate as nat))
        }
    }

    /// The time until tick `tick`, or the error for a paused clock or a tick that has occurred.
    pub open spec fn until_tick_at(self, running_for: nat, tick: nat) -> Result<nat, TimeError> {
        if self.paused() {
            Err(TimeError::EventSyncPaused)
        } else {
            until_tick(self.elapsed_at(running_for), self.tickrate as nat, tick)
        }
    }

    /// The time until `ticks` more ticks have occurred, or the error for a paused clock or for no
    /// ticks at all.
    pub open spec fn for_ticks_at(self, running_for: nat, ticks: nat) -> Result<nat, TimeError> {
        if self.paused() {
            Err(TimeError::EventSyncPaused)
        } else {
            let e = self.elapsed_at(running_for);
            until_tick(e, self.tickrate as nat, ticks_in(e, self.tickrate as nat) + ticks)
        }
    }

    /// A clock with at least a millisecond per tick that has already run for `subtracted_time`;
    /// it starts running now unless `is_paused`.
    pub fn new(tickrate: u32, subtracted_time: Span, is_paused: bool) -> (r: Self)
        ensures
            r.wf(),
            exists|at: Instant| r == InnerEventSync::created(tickrate, subtracted_time, is_paused, at),
    {
        let state = if is_paused {
            EventSyncState::Paused(subtracted_time)
        } else {
            EventSyncState::Running { since: Instant::now(), carried: subtracted_time }
        };
        let r = InnerEventSync { state, tickrate: clamp_tickrate(tickrate) };
        proof {
            let at = match state {
                EventSyncState::Running { since, .. } => since,
                EventSyncState::Paused(_) => arbitrary(),
            };
            assert(r == InnerEventSync::created(tickrate, subtracted_time, is_paused, at));
        }
        r
    }

    /// A clock that has already run for `starting_tick` ticks of at least a millisecond each; it
    /// starts running now unless `start_paused`.
    pub fn from_starting_tick(tickrate: u32, starting_tick: u32, start_paused: bool) -> (r: Self)
        ensures
            r.wf(),
            r.tickrate == effective_tickrate(tickrate),
            r.paused() == start_paused,
            r.elapsed_at(0) == tick_start(starting_tick as nat, r.tickrate as nat),
            r.ticks_count(0) == starting_tick,
    {
        let rate = clamp_tickrate(tickrate);
        proof {
            assert(starting_tick * rate <= u32::MAX * u32::MAX) by (nonlinear_arith)
                requires
                    starting_tick <= u32::MAX,
                    rate <= u32::MAX,
            ;
            let len = tick_length(rate as nat);
            assert((starting_tick * rate) * NANOS_PER_MILLI as nat == starting_tick * len)
                by (nonlinear_arith)
                requires
                    len == rate * NANOS_PER_MILLI as nat,
            ;
            lemma_ticks_in_nanos(tick_start(starting_tick as nat, rate as nat), rate as nat);
            lemma_div_by_multiple(starting_tick as int, len as int);
            assert(starting_tick as nat * len <= max_span()) by (nonlinear_arith)
                requires
                    starting_tick <= u32::MAX,
                    len == rate * NANOS_PER_MILLI as nat,
                    rate <= u32::MAX,
            ;
        }
        let elapsed = Span::from_millis(starting_tick as u64 * rate as u64);
        InnerEventSync::new(rate, elapsed, start_paused)
    }

    /// Whether the clock is paused.
    pub fn is_paused(&self) -> (r: bool)
        ensures
            r == self.paused(),
    {
        match self.state {
            EventSyncState::Paused(_) => true,
            EventSyncState::Running { .. } => false,
        }
    }

    /// The error for a paused clock.
    pub fn err_if_paused(&self) -> (r: Result<(), TimeError>)
        ensures
            r == if self.paused() {
                Err(TimeError::EventSyncPaused)
            } else {
                Ok::<(), TimeError>(())
            },
    {
        if self.is_paused() {
            Err(TimeError::EventSyncPaused)
        } else {
            Ok(())
        }
    }

    /// The length of a tick, in milliseconds.
    pub fn get_tickrate(&self) -> (r: u32)
        ensures
            r == self.tickrate,
    {
        self.tickrate
    }

    /// Sets the length of a tick to `new_tickrate` milliseconds, or one where it is zero. The time
    /// run is kept, so it may now count a different number of ticks.
    pub fn change_tickrate(&mut self, new_tickrate: u32)
        ensures
            *final(self) == (InnerEventSync { tickrate: effective_tickrate(new_tickrate), ..*old(self) }),
    {
        self.tickrate = clamp_tickrate(new_tickrate);
    }

    /// Stops the clock after `running_for` since it last started; a paused clock stays as it is.
    pub fn pause_after(&mut self, running_for: Span)
        ensures
            *final(self) == old(self).paused_after(running_for@),
    {
        if let EventSyncState::Running { carried, .. } = self.state {
            self.state = EventSyncState::Paused(carried.saturating_add(running_for));
        }
    }

    /// Stops the clock, keeping the time it has run; a paused clock stays as it is.
    pub fn pause(&mut self)
        ensures
            exists|running_for: nat| *final(self) == #[trigger] old(self).paused_after(running_for),
    {
        let running_for = self.running_for();
        self.pause_after(running_for);
    }

    /// Starts a paused clock again from now, keeping the time it has run; a running clock stays as
    /// it is. Resuming never fails here: the time run is kept as a span beside the new reading.
    pub fn unpause(&mut self) -> (r: Result<(), TimeError>)
        ensures
            r == Ok::<(), TimeError>(()),
            exists|at: Instant| *final(self) == #[trigger] old(self).resumed_at(at),
    {
        if let EventSyncState::Paused(d) = self.state {
            let now = Instant::now();
            self.state = EventSyncState::Running { since: now, carried: d };
            assert(*self == old(self).resumed_at(now));
        } else {
            assert(*self == old(self).resumed_at(arbitrary()));
        }
        Ok(())
    }

    /// Starts the clock afresh from now, with no time run, whether it was paused or not.
    pub fn restart(&mut self)
        ensures
            exists|at: Instant| *final(self) == #[trigger] old(self).restarted_at(at),
    {
        let now = Instant::now();
        self.state = EventSyncState::Running { since: now, carried: Span::zero() };
        assert(*self == old(self).restarted_at(now));
    }

    /// Stops the clock with no time run.
    pub fn restart_paused(&mut self)
        ensures
            *final(self) == old(self).restarted_paused(),
    {
        self.state = EventSyncState::Paused(Span::zero());
    }

    /// The time since a running clock last started; nothing for a paused one.
    fn running_for(&self) -> (r: Span)
        ensures
            self.paused() ==> r@ == 0,
    {
        match &self.state {
            EventSyncState::Running { since, .. } => time_since(since),
            EventSyncState::Paused(_) => Span::zero(),
        }
    }

    /// The time run, where `running_for` has passed since the clock last started.
    pub fn elapsed_with(&self, running_for: Span) -> (r: Span)
        ensures
            r@ == self.elapsed_at(running_for@),
    {
        match self.state {
            EventSyncState::Running { carried, .. } => carried.saturating_add(running_for),
            EventSyncState::Paused(d) => d,
        }
    }

    /// The time run, paused or not; a paused clock gives the time it had when it stopped.
    pub fn elapsed(&self) -> (r: Span)
        ensures
            exists|running_for: nat| r@ == #[trigger] self.elapsed_at(running_for),
    {
        self.elapsed_with(self.running_for())
    }

    /// The time run; fails for a paused clock.
    pub fn time_since_started(&self) -> (r: Result<Span, TimeError>)
        ensures
            exists|running_for: nat|
                span_result(r) == #[trigger] self.since_started_at(running_for),
    {
        let running_for = self.running_for();
        let r = match self.err_if_paused() {
            Err(e) => Err(e),
            Ok(()) => Ok(self.elapsed_with(running_for)),
        };
        assert(span_result(r) == self.since_started_at(running_for@));
        r
    }

    /// The whole ticks run, at most `u64::MAX`; fails for a paused clock.
    pub fn ticks_since_started(&self) -> (r: Result<u64, TimeError>)
        requires
            self.wf(),
        ensures
            exists|running_for: nat| r == #[trigger] self.ticks_at(running_for),
    {
        let running_for = self.running_for();
        let r = match self.err_if_paused() {
            Err(e) => Err(e),
            Ok(()) => {
                let t: u128 = ticks_elapsed(self.elapsed_with(running_for), self.tickrate);
                Ok(if t <= u64::MAX as u128 { t as u64 } else { u64::MAX })
            },
        };
        assert(r == self.ticks_at(running_for@));
        r
    }

    /// The time since the last whole tick; fails for a paused clock.
    pub fn time_since_last_tick(&self) -> (r: Result<Span, TimeError>)
        requires
            self.wf(),
        ensures
            exists|running_for: nat|
                span_result(r) == #[trigger] self.since_last_tick_at(running_for),
    {
        let running_for = self.running_for();
        let r = match self.err_if_paused() {
            Err(e) => Err(e),
            Ok(()) => Ok(time_since_last_tick(self.elapsed_with(running_for), self.tickrate)),
        };
        assert(span_result(r) == self.since_last_tick_at(running_for@));
        r
    }

    /// The time until the next tick; fails for a paused clock.
    pub fn time_until_next_tick(&self) -> (r: Result<Span, TimeError>)
        requires
            self.wf(),
        ensures
            exists|running_for: nat|
                span_result(r) == #[trigger] self.until_next_tick_at(running_for),
    {
        let running_for = self.running_for();
        let r = match self.err_if_paused() {
            Err(e) => Err(e),
            Ok(()) => Ok(time_until_next_tick(self.elapsed_with(running_for), self.tickrate)),
        };
        assert(span_result(r) == self.until_next_tick_at(running_for@));
        r
    }

    /// The time to wait for tick `tick_to_wait_for`, counted from the start; fails for a paused
    /// clock or a tick that has already occurred.
    pub fn time_until_tick_occurs(&self, tick_to_wait_for: u64) -> (r: Result<Span, TimeError>)
        requires
            self.wf(),
        ensures
            exists|running_for: nat|
                span_result(r) == #[trigger] self.until_tick_at(running_for, tick_to_wait_for as nat),
    {
        let running_for = self.running_for();
        let r = match self.err_if_paused() {
            Err(e) => Err(e),
            Ok(()) => time_until_tick(
                self.elapsed_with(running_for),
                self.tickrate,
                tick_to_wait_for,
            ),
        };
        assert(span_result(r) == self.until_tick_at(running_for@, tick_to_wait_for as nat));
        r
    }

    /// The time to wait until `ticks_to_wait` more ticks have occurred; fails for a paused clock,
    /// and for no ticks at all, as the tick named is the current one.
    pub fn time_for_x_ticks(&self, ticks_to_wait: u32) -> (r: Result<Span, TimeError>)
        requires
            self.wf(),
        ensures
            exists|running_for: nat|
                span_result(r) == #[trigger] self.for_ticks_at(running_for, ticks_to_wait as nat),
    {
        let running_for = self.running_for();
        let r = match self.err_if_paused() {
            Err(e) => Err(e),
            Ok(()) => time_for_ticks(self.elapsed_with(running_for), self.tickrate, ticks_to_wait),
        };
        assert(span_result(r) == self.for_ticks_at(running_for@, ticks_to_wait as nat));
        r
    }

    /// The time to wait for the next tick; fails for a paused clock.
    pub fn time_for_tick(&self) -> (r: Result<Span, TimeError>)
        requires
            self.wf(),
        ensures
            exists|running_for: nat| span_result(r) == #[trigger] self.for_ticks_at(running_for, 1),
    {
        self.time_for_x_ticks(1)
    }

    /// A copy of the clock as it is stored: paused, with the time it has run.
    pub fn stored(&self) -> (r: InnerEventSync)
        ensures
            exists|running_for: nat| r == #[trigger] self.paused_after(running_for),
    {
        let mut r = *self;
        r.pause();
        r
    }

    /// Whether two states are the same: the same tick rate, and both paused after the same time,
    /// or both running from the same reading with the same time carried.
    pub fn same_as(&self, other: &InnerEventSync) -> (r: bool)
        ensures
            r ==> self.alike(*other),
            self.alike(*other) && self.paused() ==> r,
    {
        if self.tickrate != other.tickrate {
            return false;
        }
        match (&self.state, &other.state) {
            (EventSyncState::Paused(a), EventSyncState::Paused(b)) => *a == *b,
            (
                EventSyncState::Running { since: a, carried: c },
                EventSyncState::Running { since: b, carried: d },
            ) => *c == *d && *a == *b,
            _ => false,
        }
    }
}

/// Pausing twice in a row is pausing once: the second pause finds the clock stopped and leaves it
/// as it is, however much later it comes.
pub proof fn lemma_pause_idempotent(s: InnerEventSync, first: nat, second: nat)
    ensures
        s.paused_after(first).paused_after(second) == s.paused_after(first),
{
}

/// Unpausing twice in a row is unpausing once: the second finds the clock running and leaves it as
/// it is.
pub proof fn lemma_unpause_idempotent(s: InnerEventSync, first: Instant, second: Instant)
    ensures
        s.resumed_at(first).resumed_at(second) == s.resumed_at(first),
{
}

/// Pausing and then resuming keeps the time run: once resumed, the clock counts on from the time it
/// had when it stopped, however long it stayed paused.
pub proof fn lemma_resume_keeps_progress(
    s: InnerEventSync,
    ran: nat,
    at: Instant,
    running_for: nat,
)
    ensures
        s.paused_after(ran).resumed_at(at).elapsed_at(running_for) == saturate(
            s.elapsed_at(ran) + running_for,
        ),
        s.paused_after(ran).resumed_at(at).elapsed_at(0) == s.elapsed_at(ran),
{
}

/// Waiting on a running clock for the time left until tick `tick` brings it to exactly that
/// tick: asked right after the wait, the clock counts `tick` ticks.
pub proof fn lemma_wait_until_reaches_tick(s: InnerEventSync, running_for: nat, tick: nat)
    requires
        s.wf(),
        !s.paused(),
        s.until_tick_at(running_for, tick) is Ok,
        tick_start(tick, s.tickrate as nat) <= max_span(),
        tick <= u64::MAX,
    ensures
        s.until_tick_at(running_for, tick) matches Ok(left) && s.ticks_at(running_for + left)
            == Ok::<u64, TimeError>(tick as u64),
{
    let rate = s.tickrate as nat;
    let e = s.elapsed_at(running_for);
    lemma_tick_reached(e, rate, tick);
    lemma_wait_reaches_tick(e, rate, tick);
}

/// A clock stored as it is serialized (paused, with its tick rate and the time it has run) and
/// rebuilt from those two values is the stored clock itself, paused; once resumed, it counts the
/// ticks it had when stored, however long it stayed stored.
pub proof fn lemma_stored_clock_round_trip(
    s: InnerEventSync,
    ran: nat,
    rebuilt_at: Instant,
    resumed_at: Instant,
)
    requires
        s.wf(),
    ensures
        ({
            let stored = s.paused_after(ran);
            &&& stored.paused()
            &&& stored.state matches EventSyncState::Paused(d) && InnerEventSync::created(
                stored.tickrate,
                d,
                true,
                rebuilt_at,
            ) == stored
            &&& stored.resumed_at(resumed_at).ticks_at(0) == Ok::<u64, TimeError>(
                s.ticks_count(ran),
            )
        }),
{
}

} // verus!
