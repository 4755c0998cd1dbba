use event_sync::ticks::{
    clamp_tickrate, ticks_elapsed, time_for_ticks, time_since_last_tick, time_until_next_tick,
    time_until_tick,
};
use event_sync::{EventSync, EventSyncState, InnerEventSync, Span, TimeError};
use std::sync::mpsc;
use std::time::{Duration, Instant};

fn ms(n: u64) -> Span {
    Span::from_millis(n)
}

fn sleep_for(span: Span) {
    let length = Duration::new(span.as_secs(), span.subsec_nanos());
    let start = Instant::now();
    // Nothing is ever sent: each receive blocks until its timeout.
    let (_sender, receiver) = mpsc::channel::<()>();
    while start.elapsed() < length {
        let _ = receiver.recv_timeout(length.saturating_sub(start.elapsed()));
    }
}

#[test]
fn zero_tickrate_runs_at_one_millisecond() {
    assert_eq!(clamp_tickrate(0), 1);
    assert_eq!(clamp_tickrate(1), 1);
    assert_eq!(clamp_tickrate(250), 250);
    assert_eq!(EventSync::new(0).get_tickrate(), 1);
    assert_eq!(EventSync::new_paused(0).get_tickrate(), 1);
    assert_eq!(EventSync::from_starting_time(0, ms(5), true).get_tickrate(), 1);
    let mut clock = EventSync::new(7);
    clock.change_tickrate(0);
    assert_eq!(clock.get_tickrate(), 1);
}

#[test]
fn span_conversions() {
    let s = Span::new(2, 1_500_000_000);
    assert_eq!(s.as_secs(), 3);
    assert_eq!(s.subsec_nanos(), 500_000_000);
    assert_eq!(s.as_nanos(), 3_500_000_000);
    assert_eq!(s.as_millis(), 3_500);
    assert_eq!(ms(1_234).as_nanos(), 1_234_000_000);
    assert_eq!(ms(1_234).as_secs(), 1);
    assert_eq!(Span::zero().as_nanos(), 0);
    assert_eq!(ms(3).saturating_add(ms(4)), ms(7));
    let longest = Span::new(u64::MAX, 999_999_999);
    assert_eq!(longest.saturating_add(ms(1)), longest);
    assert_eq!(Span::from_nanos_saturating(u128::MAX), longest);
    assert_eq!(Span::from_nanos_saturating(1_000_000_001), Span::new(1, 1));
}

#[test]
fn tick_arithmetic_values() {
    // 25 ms into a clock with 10 ms ticks: tick 2, 5 ms into it.
    let e = ms(25);
    assert_eq!(ticks_elapsed(e, 10), 2);
    assert_eq!(time_since_last_tick(e, 10), ms(5));
    assert_eq!(time_until_next_tick(e, 10), ms(5));
    assert_eq!(time_until_tick(e, 10, 3), Ok(ms(5)));
    assert_eq!(time_until_tick(e, 10, 10), Ok(ms(75)));
    assert_eq!(time_until_tick(e, 10, 2), Err(TimeError::ThatTimeHasAlreadyHappened));
    assert_eq!(time_until_tick(e, 10, 0), Err(TimeError::ThatTimeHasAlreadyHappened));
    // Exactly on a tick: a whole tick to the next one.
    assert_eq!(time_until_next_tick(ms(30), 10), ms(10));
    assert_eq!(time_since_last_tick(ms(30), 10), Span::zero());
    // Sub-millisecond parts count toward the time since the last tick, not toward ticks.
    let e = Span::new(0, 19_999_999);
    assert_eq!(ticks_elapsed(e, 10), 1);
    assert_eq!(time_since_last_tick(e, 10).as_nanos(), 9_999_999);
    assert_eq!(time_until_next_tick(e, 10).as_nanos(), 1);
}

#[test]
fn waiting_for_ticks_subtracts_the_current_fraction() {
    let e = ms(25);
    assert_eq!(time_for_ticks(e, 10, 1), Ok(ms(5)));
    assert_eq!(time_for_ticks(e, 10, 3), Ok(ms(25)));
    assert_eq!(time_for_ticks(e, 10, 0), Err(TimeError::ThatTimeHasAlreadyHappened));
    assert_eq!(time_for_ticks(Span::zero(), 10, 4), Ok(ms(40)));
}

#[test]
fn waiting_for_x_ticks_takes_about_that_long() {
    let clock = EventSync::new(10);
    let start = Instant::now();
    sleep_for(clock.time_for_x_ticks(3).unwrap());
    let took = start.elapsed().as_millis();
    assert!((29..=45).contains(&took), "took {} ms", took);
}

#[test]
fn waiting_reaches_exactly_the_tick() {
    for k in [1u64, 2, 7] {
        let e = Span::new(0, 3_141_592);
        let left = time_until_tick(e, 10, k).unwrap();
        let reached = e.saturating_add(left);
        assert_eq!(ticks_elapsed(reached, 10), k as u128);
        assert_eq!(reached, ms(10 * k));
    }
}

#[test]
fn largest_ticks_do_not_overflow() {
    let longest = Span::new(u64::MAX, 999_999_999);
    assert_eq!(ticks_elapsed(longest, u32::MAX), 4_294_967_297_000);
    assert_eq!(time_until_tick(Span::zero(), u32::MAX, u64::MAX), Ok(longest));
    let clock = InnerEventSync::new(1, longest, false);
    assert_eq!(clock.ticks_since_started(), Ok(u64::MAX));
    let clock = EventSync::from_starting_tick(u32::MAX, u32::MAX, true);
    assert!(clock.is_paused());
    assert_eq!(
        clock.snapshot().elapsed().as_millis(),
        u32::MAX as u128 * u32::MAX as u128
    );
}

#[test]
fn paused_state_answers_only_untimed_queries() {
    let clock = InnerEventSync::new(0, ms(30), true);
    assert!(clock.is_paused());
    assert_eq!(clock.get_tickrate(), 1);
    assert_eq!(clock.elapsed(), ms(30));
    assert_eq!(clock.err_if_paused(), Err(TimeError::EventSyncPaused));
    assert_eq!(clock.time_since_started(), Err(TimeError::EventSyncPaused));
    assert_eq!(clock.ticks_since_started(), Err(TimeError::EventSyncPaused));
    assert_eq!(clock.time_since_last_tick(), Err(TimeError::EventSyncPaused));
    assert_eq!(clock.time_until_next_tick(), Err(TimeError::EventSyncPaused));
    assert_eq!(clock.time_until_tick_occurs(100), Err(TimeError::EventSyncPaused));
    assert_eq!(clock.time_for_tick(), Err(TimeError::EventSyncPaused));
    assert_eq!(clock.time_for_x_ticks(2), Err(TimeError::EventSyncPaused));
}

#[test]
fn paused_fresh_clock_refuses_time_queries() {
    let mut clock = EventSync::new(10);
    clock.pause();
    assert_eq!(clock.time_until_tick_occurs(1), Err(TimeError::EventSyncPaused));
    assert_eq!(clock.time_since_started(), Err(TimeError::EventSyncPaused));
    assert_eq!(clock.ticks_since_started(), Err(TimeError::EventSyncPaused));
    assert_eq!(clock.time_since_last_tick(), Err(TimeError::EventSyncPaused));
    assert_eq!(clock.time_until_next_tick(), Err(TimeError::EventSyncPaused));
    assert_eq!(EventSync::new_paused(10).ticks_since_started(), Err(TimeError::EventSyncPaused));
}

#[test]
fn pause_after_adds_the_running_time() {
    let mut clock = InnerEventSync::new(10, ms(30), false);
    clock.pause_after(ms(5));
    assert!(clock.is_paused());
    assert_eq!(clock.elapsed(), ms(35));
    clock.pause_after(ms(100));
    assert_eq!(clock.elapsed(), ms(35));
    let running = InnerEventSync::new(10, ms(30), false);
    assert_eq!(running.elapsed_with(ms(12)), ms(42));
}

#[test]
fn pausing_twice_is_pausing_once() {
    let mut clock = EventSync::new(10);
    sleep_for(clock.time_for_x_ticks(2).unwrap());
    clock.pause();
    let once = clock.snapshot().elapsed();
    sleep_for(ms(15));
    clock.pause();
    assert_eq!(clock.snapshot().elapsed(), once);

    let mut state = InnerEventSync::new(10, ms(20), true);
    state.unpause().unwrap();
    let resumed = state;
    state.unpause().unwrap();
    assert!(state.same_as(&resumed));
}

#[test]
fn restart_paused_clears_the_time() {
    let mut clock = InnerEventSync::new(10, ms(30), false);
    clock.restart_paused();
    assert!(clock.is_paused());
    assert_eq!(clock.elapsed(), Span::zero());
    clock.restart();
    assert!(!clock.is_paused());
    assert_eq!(clock.ticks_since_started(), Ok(0));
}

#[test]
fn stored_copy_is_paused_and_keeps_the_clock_running() {
    let clock = InnerEventSync::new(10, ms(20), false);
    let stored = clock.stored();
    assert!(stored.is_paused());
    assert!(!clock.is_paused());
    assert_eq!(stored.get_tickrate(), 10);
    assert!(stored.elapsed().as_millis() >= 20);
    match stored.state {
        EventSyncState::Paused(d) => assert_eq!(d, stored.elapsed()),
        EventSyncState::Running { .. } => panic!("a stored clock is paused"),
    }
}

#[test]
fn cloned_handle_pauses_the_first() {
    let first = EventSync::new(10);
    let mut clone = first.clone();
    clone.pause();
    assert!(first.is_paused());
    let viewer = first.clone_immutable();
    assert!(viewer.is_paused());
    clone.unpause().unwrap();
    assert!(!viewer.is_paused());
}

#[test]
fn stored_clock_resumes_with_its_ticks() {
    let clock = EventSync::new(10);
    sleep_for(clock.time_until_tick_occurs(2).unwrap());
    let stored = clock.snapshot();
    sleep_for(ms(35));
    let mut restored = EventSync::from_starting_time(stored.get_tickrate(), stored.elapsed(), true);
    assert!(restored.is_paused());
    restored.unpause().unwrap();
    assert_eq!(restored.ticks_since_started(), Ok(2));
}

#[test]
fn paused_and_states_compare() {
    let a = InnerEventSync::new(10, ms(5), true);
    let b = InnerEventSync::new(10, ms(5), true);
    let c = InnerEventSync::new(20, ms(5), true);
    let d = InnerEventSync::new(10, ms(6), true);
    assert!(a.same_as(&b));
    assert!(!a.same_as(&c));
    assert!(!a.same_as(&d));
    assert!(EventSync::new_paused(3) == EventSync::new_paused(3));
    assert!(EventSync::new_paused(3) != EventSync::new_paused(4));
}

#[test]
fn time_since_started_counts_real_time() {
    let clock = EventSync::new(10);
    sleep_for(ms(3));
    let t = clock.time_since_started().unwrap();
    assert!(t.as_millis() >= 3);
    assert!(t.subsec_nanos() < 1_000_000_000);
    assert!(t.as_nanos() > 3_000_000);
}

#[test]
fn starting_tick_state_counts_those_ticks() {
    let clock = InnerEventSync::from_starting_tick(10, 7, true);
    assert!(clock.is_paused());
    assert_eq!(clock.get_tickrate(), 10);
    assert_eq!(clock.elapsed(), ms(70));
    let mut clock = InnerEventSync::from_starting_tick(0, 7, false);
    assert_eq!(clock.get_tickrate(), 1);
    assert_eq!(clock.ticks_since_started(), Ok(7));
    clock.pause();
    clock.unpause().unwrap();
    assert_eq!(clock.ticks_since_started(), Ok(7));
}
