//! A monotonic timebase for interrupt-driven schedulers.
//!
//! [`Monotonic`] is the set of operations a hardware timer offers to the
//! scheduler that owns it, together with the guarantees the scheduler may rely
//! on. [`Instant`] and [`Duration`] are tick-based time values with checked
//! arithmetic, and [`ExtendedTimer`] is a timebase built on a narrow wrapping
//! counter whose range is widened in software; [`TimerModel`] is its state
//! machine. [`WideTimer`] is a timebase on a counter that is wide enough as it
//! is.

pub mod extended;
pub mod history;
pub mod model;
pub mod monotonic;
pub mod service;
pub mod time;
pub mod wide;

pub use extended::ExtendedTimer;
pub use history::Step;
pub use model::TimerModel;
pub use monotonic::{Monotonic, Phase, Snapshot};
pub use time::{Duration, Instant};
pub use wide::WideTimer;
