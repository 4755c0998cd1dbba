//! A tick-based clock that many handles share, for timing work across threads without drift.
//!
//! A clock counts ticks of a fixed number of milliseconds from its start. Every wait is computed
//! against an absolute tick, so the time lost to scheduling in one wait is not carried into the
//! next. Clocks can be paused and resumed without losing the time they have run.
//!
//! - `span`: lengths of time, as whole seconds and nanoseconds.
//! - `ticks`: the tick arithmetic on an elapsed time and a tick rate.
//! - `inner`: the state of one clock and its transitions.
//! - `event_sync`: the shared, lock-protected handle.
//! - `error`: the errors the operations return.
pub mod error;
pub mod event_sync;
pub mod inner;
mod instant;
pub mod span;
pub mod ticks;

pub use error::TimeError;
pub use event_sync::{EventSync, Immutable, Mutable};
pub use inner::{EventSyncState, InnerEventSync};
pub use span::Span;
