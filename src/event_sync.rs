use vstd::prelude::*;

use crate::error::TimeError;
use crate::inner::InnerEventSync;
use crate::span::Span;
use crate::ticks::span_result;
use std::marker::PhantomData;
use std::sync::Arc;
use vstd::rwlock::{RwLock, RwLockPredicate};

verus! {

/// What the lock of a clock admits: a well-formed state.
pub struct WellFormed;

impl RwLockPredicate<InnerEventSync> for WellFormed {
    open spec fn inv(self, v: InnerEventSync) -> bool {
        v.wf()
    }
}

/// Marks a handle through which the clock may be changed.
#[derive(Clone, Copy, Debug)]
pub struct Mutable;

/// Marks a handle through which the clock may only be read and waited on.
#[derive(Clone, Copy, Debug)]
pub struct Immutable;

/// A handle to a clock shared by every handle cloned from it.
///
/// Queries read the shared state under a read lock; changes take the write lock. Since other
/// handles may change the state at any time, what a query returns is stated of the state it read
/// and of the time that had passed when it read it; the state machine itself is stated on
/// `InnerEventSync`.
pub struct EventSync<Access = Mutable> {
    inner: Arc<RwLock<InnerEventSync, WellFormed>>,
    change_access: PhantomData<Access>,
}

impl<T> Clone for EventSync<T> {
    /// Another handle to the same clock.
    fn clone(&self) -> Self {
        EventSync { inner: self.inner.clone(), change_access: PhantomData }
    }
}

impl<T> EventSync<T> {
    /// A copy of the state as it is now.
    fn read_inner(&self) -> (r: InnerEventSync)
        ensures
            r.wf(),
    {
        let handle = self.inner.acquire_read();
        let state = *handle.borrow();
        handle.release_read();
        state
    }

    /// Whether the clock is paused.
    pub fn is_paused(&self) -> bool {
        let s = self.read_inner();
        s.is_paused()
    }

    /// The length of a tick, in milliseconds; never below one.
    pub fn get_tickrate(&self) -> (r: u32)
        ensures
            r >= 1,
    {
        self.read_inner().get_tickrate()
    }

    /// The time the clock has run; fails while it is paused.
    pub fn time_since_started(&self) -> (r: Result<Span, TimeError>)
        ensures
            exists|s: InnerEventSync, running_for: nat|
                s.wf() && span_result(r) == #[trigger] s.since_started_at(running_for),
    {
        let s = self.read_inner();
        s.time_since_started()
    }

    /// The whole ticks the clock has run; fails while it is paused.
    pub fn ticks_since_started(&self) -> (r: Result<u64, TimeError>)
        ensures
            exists|s: InnerEventSync, running_for: nat|
                s.wf() && r == #[trigger] s.ticks_at(running_for),
    {
        let s = self.read_inner();
        s.ticks_since_started()
    }

    /// The time since the last whole tick; fails while the clock is paused.
    pub fn time_since_last_tick(&self) -> (r: Result<Span, TimeError>)
        ensures
            exists|s: InnerEventSync, running_for: nat|
                s.wf() && span_result(r) == #[trigger] s.since_last_tick_at(running_for),
    {
        let s = self.read_inner();
        s.time_since_last_tick()
    }

    /// The time until the next tick; fails while the clock is paused.
    pub fn time_until_next_tick(&self) -> (r: Result<Span, TimeError>)
        ensures
            exists|s: InnerEventSync, running_for: nat|
                s.wf() && span_result(r) == #[trigger] s.until_next_tick_at(running_for),
    {
        let s = self.read_inner();
        s.time_until_next_tick()
    }

    /// How long to sleep for tick `tick_to_wait_for` to have occurred, counted from the start;
    /// fails while the clock is paused or when that tick has already occurred.
    pub fn time_until_tick_occurs(&self, tick_to_wait_for: u64) -> (r: Result<Span, TimeError>)
        ensures
            exists|s: InnerEventSync, running_for: nat|
                s.wf() && span_result(r) == #[trigger] s.until_tick_at(
                    running_for,
                    tick_to_wait_for as nat,
                ),
    {
        let s = self.read_inner();
        s.time_until_tick_occurs(tick_to_wait_for)
    }

    /// How long to sleep for the next tick; fails while the clock is paused.
    pub fn time_for_tick(&self) -> (r: Result<Span, TimeError>)
        ensures
            exists|s: InnerEventSync, running_for: nat|
                s.wf() && span_result(r) == #[trigger] s.for_ticks_at(running_for, 1),
    {
        let s = self.read_inner();
        s.time_for_tick()
    }

    /// How long to sleep for `ticks_to_wait` more ticks; fails while the clock is paused, and for
    /// no ticks at all.
    pub fn time_for_x_ticks(&self, ticks_to_wait: u32) -> (r: Result<Span, TimeError>)
        ensures
            exists|s: InnerEventSync, running_for: nat|
                s.wf() && span_result(r) == #[trigger] s.for_ticks_at(
                    running_for,
                    ticks_to_wait as nat,
                ),
    {
        let s = self.read_inner();
        s.time_for_x_ticks(ticks_to_wait)
    }

    /// The clock as it is stored: paused, with its tick rate and the time it has run, whether it
    /// runs or not. The clock itself is left as it is.
    pub fn snapshot(&self) -> (r: InnerEventSync)
        ensures
            r.wf(),
            r.paused(),
            exists|s: InnerEventSync, running_for: nat|
                s.wf() && r == #[trigger] s.paused_after(running_for),
    {
        let s = self.read_inner();
        s.stored()
    }
}

impl EventSync<Mutable> {
    /// A running clock with ticks of `tickrate_in_milliseconds` (one where it is zero), at tick 0.
    pub fn new(tickrate_in_milliseconds: u32) -> Self {
        Self::new_event_sync(tickrate_in_milliseconds, Span::zero(), false)
    }

    /// A paused clock with ticks of `tickrate_in_milliseconds` (one where it is zero), at tick 0.
    pub fn new_paused(tickrate_in_milliseconds: u32) -> Self {
        Self::new_event_sync(tickrate_in_milliseconds, Span::zero(), true)
    }

    /// A clock that has already run for `elapsed_time`, paused or running from now.
    pub fn from_starting_time(
        tickrate_in_milliseconds: u32,
        elapsed_time: Span,
        start_paused: bool,
    ) -> Self {
        Self::new_event_sync(tickrate_in_milliseconds, elapsed_time, start_paused)
    }

    /// A clock that has already run for `starting_tick` ticks, paused or running from now.
    pub fn from_starting_tick(
        tickrate_in_milliseconds: u32,
        starting_tick: u32,
        start_paused: bool,
    ) -> Self {
        Self::shared(InnerEventSync::from_starting_tick(tickrate_in_milliseconds, starting_tick, start_paused))
    }

    fn new_event_sync(tickrate: u32, elapsed_time: Span, is_paused: bool) -> Self {
        Self::shared(InnerEventSync::new(tickrate, elapsed_time, is_paused))
    }

    /// A first handle to a clock in the state `inner`.
    fn shared(inner: InnerEventSync) -> Self
        requires
            inner.wf(),
    {
        EventSync { inner: Arc::new(RwLock::new(inner, Ghost(WellFormed))), change_access: PhantomData }
    }

    /// A handle to the same clock through which it can only be read and waited on.
    pub fn clone_immutable(&self) -> EventSync<Immutable> {
        EventSync { inner: self.inner.clone(), change_access: PhantomData }
    }

    /// Starts the clock afresh from now, with no time run, whether it was paused or not.
    pub fn restart(&mut self)
        ensures
            *final(self) == *old(self),
    {
        let (mut s, handle) = self.inner.acquire_write();
        s.restart();
        handle.release_write(s);
    }

    /// Stops the clock with no time run.
    pub fn restart_paused(&mut self)
        ensures
            *final(self) == *old(self),
    {
        let (mut s, handle) = self.inner.acquire_write();
        s.restart_paused();
        handle.release_write(s);
    }

    /// Sets the length of a tick to `new_tickrate` milliseconds, or one where it is zero.
    pub fn change_tickrate(&mut self, new_tickrate: u32)
        ensures
            *final(self) == *old(self),
    {
        let (mut s, handle) = self.inner.acquire_write();
        s.change_tickrate(new_tickrate);
        handle.release_write(s);
    }

    /// Starts a paused clock again, keeping the time it has run; a running clock is left as it is.
    pub fn unpause(&mut self) -> (r: Result<(), TimeError>)
        ensures
            *final(self) == *old(self),
            r == Ok::<(), TimeError>(()),
    {
        let (mut s, handle) = self.inner.acquire_write();
        let r = s.unpause();
        handle.release_write(s);
        r
    }

    /// Stops the clock, keeping the time it has run; a paused clock is left as it is.
    pub fn pause(&mut self)
        ensures
            *final(self) == *old(self),
    {
        let (mut s, handle) = self.inner.acquire_write();
        s.pause();
        handle.release_write(s);
    }
}

impl<T> PartialEq for EventSync<T> {
    /// Whether the two clocks are in the same state, each read in turn. The result depends on
    /// the shared states at the time of the call, not on the handles alone.
    fn eq(&self, other: &Self) -> bool {
        let a = self.read_inner();
        let b = other.read_inner();
        a.same_as(&b)
    }
}

impl<T> vstd::std_specs::cmp::PartialEqSpecImpl for EventSync<T> {
    open spec fn obeys_eq_spec() -> bool {
        false
    }

    open spec fn eq_spec(&self, other: &Self) -> bool {
        false
    }
}

impl<T> Eq for EventSync<T> {
}

} // verus!
