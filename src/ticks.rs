use vstd::prelude::*;

use crate::error::TimeError;
use crate::span::{max_span, saturate, Span, NANOS_PER_MILLI};
use vstd::arithmetic::div_mod::{
    lemma_div_by_multiple, lemma_div_denominator, lemma_fundamental_div_mod,
};

verus! {

/// The tick rate a clock runs at when `requested` milliseconds are asked for: at least one.
pub open spec fn effective_tickrate(requested: u32) -> u32 {
    if requested < 1 {
        1
    } else {
        requested
    }
}

/// One tick, in nanoseconds.
pub open spec fn tick_length(tickrate: nat) -> nat {
    tickrate * NANOS_PER_MILLI as nat
}

/// The whole ticks in `elapsed` nanoseconds: the whole milliseconds divided by the tick rate.
pub open spec fn ticks_in(elapsed: nat, tickrate: nat) -> nat {
    (elapsed / NANOS_PER_MILLI as nat) / tickrate
}

/// The time from the start at which tick `tick` occurs, in nanoseconds.
pub open spec fn tick_start(tick: nat, tickrate: nat) -> nat {
    tick * tick_length(tickrate)
}

/// The nanoseconds that have passed since the last whole tick.
pub open spec fn since_last_tick(elapsed: nat, tickrate: nat) -> nat {
    elapsed % tick_length(tickrate)
}

/// The nanoseconds left until the next tick: a tick's length less what has passed of it, never
/// below zero.
pub open spec fn until_next_tick(elapsed: nat, tickrate: nat) -> nat {
    if since_last_tick(elapsed, tickrate) <= tick_length(tickrate) {
        (tick_length(tickrate) - since_last_tick(elapsed, tickrate)) as nat
    } else {
        0
    }
}

/// The nanoseconds left until tick `tick` occurs (as a span holds them), or the error when the
/// tick has already occurred.
pub open spec fn until_tick(elapsed: nat, tickrate: nat, tick: nat) -> Result<nat, TimeError> {
    if ticks_in(elapsed, tickrate) < tick {
        Ok(saturate((tick_start(tick, tickrate) - elapsed) as nat))
    } else {
        Err(TimeError::ThatTimeHasAlreadyHappened)
    }
}

/// A result that carries a span, with the span read as nanoseconds.
pub open spec fn span_result(r: Result<Span, TimeError>) -> Result<nat, TimeError> {
    match r {
        Ok(d) => Ok(d@),
        Err(e) => Err(e),
    }
}

/// Whole ticks counted in nanoseconds: `elapsed` over one tick's length.
pub proof fn lemma_ticks_in_nanos(elapsed: nat, tickrate: nat)
    requires
        tickrate >= 1,
    ensures
        tick_length(tickrate) > 0,
        ticks_in(elapsed, tickrate) == elapsed / tick_length(tickrate),
        ticks_in(elapsed, tickrate) * tick_length(tickrate) + since_last_tick(elapsed, tickrate)
            == elapsed,
        since_last_tick(elapsed, tickrate) < tick_length(tickrate),
{
    let m = NANOS_PER_MILLI as int;
    lemma_div_denominator(elapsed as int, m, tickrate as int);
    assert(m * tickrate == tickrate * m) by (nonlinear_arith);
    let len = tick_length(tickrate) as int;
    lemma_fundamental_div_mod(elapsed as int, len);
    assert(len * (elapsed as int / len) == (elapsed as int / len) * len) by (nonlinear_arith);
}

/// A tick has occurred exactly when the elapsed time has reached its start.
pub proof fn lemma_tick_reached(elapsed: nat, tickrate: nat, tick: nat)
    requires
        tickrate >= 1,
    ensures
        ticks_in(elapsed, tickrate) < tick <==> elapsed < tick_start(tick, tickrate),
{
    lemma_ticks_in_nanos(elapsed, tickrate);
    let len = tick_length(tickrate);
    let q = ticks_in(elapsed, tickrate);
    let rem = since_last_tick(elapsed, tickrate);
    if q < tick {
        assert(q * len + len <= tick * len) by (nonlinear_arith)
            requires
                q < tick,
                len > 0,
        ;
    } else {
        assert(tick * len <= q * len) by (nonlinear_arith)
            requires
                tick <= q,
                len > 0,
        ;
    }
}

/// Waiting for `n` more ticks waits `n` tick lengths less what has already passed of the
/// current tick; waiting for no more ticks names a tick that has already occurred.
pub proof fn lemma_wait_for_ticks(elapsed: nat, tickrate: nat, n: nat)
    requires
        tickrate >= 1,
    ensures
        n >= 1 ==> until_tick(elapsed, tickrate, ticks_in(elapsed, tickrate) + n) == Ok::<
            nat,
            TimeError,
        >(saturate((n * tick_length(tickrate) - since_last_tick(elapsed, tickrate)) as nat)),
        n == 0 ==> until_tick(elapsed, tickrate, ticks_in(elapsed, tickrate) + n) == Err::<
            nat,
            TimeError,
        >(TimeError::ThatTimeHasAlreadyHappened),
{
    lemma_ticks_in_nanos(elapsed, tickrate);
    let q = ticks_in(elapsed, tickrate);
    let len = tick_length(tickrate);
    assert((q + n) * len == q * len + n * len) by (nonlinear_arith);
}

/// Waiting the time left until tick `tick` brings the clock to exactly that tick.
pub proof fn lemma_wait_reaches_tick(elapsed: nat, tickrate: nat, tick: nat)
    requires
        tickrate >= 1,
        ticks_in(elapsed, tickrate) < tick,
        tick_start(tick, tickrate) <= max_span(),
    ensures
        until_tick(elapsed, tickrate, tick) matches Ok(left) && elapsed + left == tick_start(
            tick,
            tickrate,
        ) && ticks_in(elapsed + left, tickrate) == tick,
{
    lemma_tick_reached(elapsed, tickrate, tick);
    lemma_ticks_in_nanos(tick_start(tick, tickrate), tickrate);
    lemma_div_by_multiple(tick as int, tick_length(tickrate) as int);
}

/// The rate at which a clock asked for `requested` milliseconds per tick runs.
pub fn clamp_tickrate(requested: u32) -> (r: u32)
    ensures
        r == effective_tickrate(requested),
        r >= 1,
{
    if requested < 1 {
        1
    } else {
        requested
    }
}

/// The whole ticks in `elapsed` at `tickrate` milliseconds per tick.
pub fn ticks_elapsed(elapsed: Span, tickrate: u32) -> (r: u128)
    requires
        tickrate >= 1,
    ensures
        r == ticks_in(elapsed@, tickrate as nat),
        elapsed@ <= max_span(),
{
    elapsed.as_millis() / tickrate as u128
}

/// The time left until tick `tick`, with the tick's start known to fit in a `u128`.
fn remaining_until(elapsed: Span, tickrate: u32, tick: u128) -> (r: Result<Span, TimeError>)
    requires
        tickrate >= 1,
        tick_start(tick as nat, tickrate as nat) <= u128::MAX,
    ensures
        span_result(r) == until_tick(elapsed@, tickrate as nat, tick as nat),
{
    if ticks_elapsed(elapsed, tickrate) < tick {
        let len: u128 = tickrate as u128 * NANOS_PER_MILLI as u128;
        let start: u128 = tick * len;
        let now: u128 = elapsed.as_nanos();
        proof {
            lemma_tick_reached(elapsed@, tickrate as nat, tick as nat);
        }
        Ok(Span::from_nanos_saturating(start - now))
    } else {
        Err(TimeError::ThatTimeHasAlreadyHappened)
    }
}

/// The time left until tick `tick` occurs, counted from the start; fails when it already has.
pub fn time_until_tick(elapsed: Span, tickrate: u32, tick: u64) -> (r: Result<Span, TimeError>)
    requires
        tickrate >= 1,
    ensures
        span_result(r) == until_tick(elapsed@, tickrate as nat, tick as nat),
{
    proof {
        let len = tick_length(tickrate as nat);
        assert(tick as nat * len <= u64::MAX as nat * (u32::MAX as nat * NANOS_PER_MILLI as nat))
            by (nonlinear_arith)
            requires
                tick <= u64::MAX,
                len == tickrate as nat * NANOS_PER_MILLI as nat,
                tickrate <= u32::MAX,
        ;
    }
    remaining_until(elapsed, tickrate, tick as u128)
}

/// The time left until `ticks` more ticks have occurred after the current one.
pub fn time_for_ticks(elapsed: Span, tickrate: u32, ticks: u32) -> (r: Result<Span, TimeError>)
    requires
        tickrate >= 1,
    ensures
        span_result(r) == until_tick(
            elapsed@,
            tickrate as nat,
            ticks_in(elapsed@, tickrate as nat) + ticks as nat,
        ),
{
    let now: u128 = ticks_elapsed(elapsed, tickrate);
    proof {
        lemma_ticks_in_nanos(elapsed@, tickrate as nat);
        let len = tick_length(tickrate as nat);
        assert((now + ticks) * len == now * len + ticks * len) by (nonlinear_arith);
        assert(ticks as nat * len <= u32::MAX as nat * (u32::MAX as nat * NANOS_PER_MILLI as nat))
            by (nonlinear_arith)
            requires
                ticks <= u32::MAX,
                len == tickrate as nat * NANOS_PER_MILLI as nat,
                tickrate <= u32::MAX,
        ;
    }
    remaining_until(elapsed, tickrate, now + ticks as u128)
}

/// The time since the last whole tick.
pub fn time_since_last_tick(elapsed: Span, tickrate: u32) -> (r: Span)
    requires
        tickrate >= 1,
    ensures
        r@ == since_last_tick(elapsed@, tickrate as nat),
{
    let len: u128 = tickrate as u128 * NANOS_PER_MILLI as u128;
    proof {
        lemma_ticks_in_nanos(elapsed@, tickrate as nat);
    }
    Span::from_nanos_saturating(elapsed.as_nanos() % len)
}

/// The time until the next tick.
pub fn time_until_next_tick(elapsed: Span, tickrate: u32) -> (r: Span)
    requires
        tickrate >= 1,
    ensures
        r@ == until_next_tick(elapsed@, tickrate as nat),
{
    let len: u128 = tickrate as u128 * NANOS_PER_MILLI as u128;
    proof {
        lemma_ticks_in_nanos(elapsed@, tickrate as nat);
    }
    let past: u128 = elapsed.as_nanos() % len;
    Span::from_nanos_saturating(len - past)
}

} // verus!
