//! The operations of a monotonic timebase and what each of them guarantees.

use core::ops::{Add, Sub};
use vstd::prelude::*;

verus! {

/// What the owner of a timebase can observe of it, in ticks.
pub struct Snapshot {
    /// Whether the baseline has been fixed.
    pub started: bool,
    /// The time that the timebase shows.
    pub reading: nat,
    /// The instant at which the next interrupt is due, if one is armed.
    pub target: Option<nat>,
    /// Whether a compare interrupt is pending.
    pub flag: bool,
}

/// Where a timebase stands in its life.
#[derive(Clone, Copy, Debug, PartialEq, Eq, Structural)]
pub enum Phase {
    /// The baseline has not been fixed yet.
    Uninitialized,
    /// The baseline is fixed and no target is armed.
    Idle,
    /// The baseline is fixed and a target is armed.
    Armed,
}

impl Snapshot {
    /// The phase that the timebase is in.
    pub open spec fn phase(self) -> Phase {
        if !self.started {
            Phase::Uninitialized
        } else if self.target.is_some() {
            Phase::Armed
        } else {
            Phase::Idle
        }
    }
}

/// A monotonic clock that can raise one interrupt at a chosen instant.
///
/// A timebase is owned by one scheduler, which fixes the baseline once with
/// [`reset`](Monotonic::reset) and from then on reads the time, arms the next
/// wake-up and acknowledges the interrupt. No operation can fail.
pub trait Monotonic {
    /// Whether the scheduler should disable the interrupt of this timebase
    /// while no task is waiting. A timebase that needs its interrupt for
    /// housekeeping, such as counting the overflows of a narrow counter, sets
    /// this to `false`.
    const DISABLE_INTERRUPT_ON_EMPTY_QUEUE: bool = true;

    /// A point in time of this timebase.
    type Instant: Ord
        + Copy
        + Add<Self::Duration, Output = Self::Instant>
        + Sub<Self::Duration, Output = Self::Instant>
        + Sub<Self::Instant, Output = Self::Duration>;

    /// A span of time of this timebase.
    type Duration;

    /// The invariant of the timebase.
    spec fn wf(&self) -> bool;

    /// What the owner can observe of the timebase.
    spec fn snapshot(&self) -> Snapshot;

    /// The distance of an instant from the zero of the timeline, in ticks.
    spec fn instant_ticks(instant: Self::Instant) -> nat;

    /// The current time. Reading it changes nothing that can be observed.
    fn now(&mut self) -> (t: Self::Instant)
        requires
            old(self).wf(),
        ensures
            final(self).wf(),
            final(self).snapshot() == old(self).snapshot(),
            Self::instant_ticks(t) == old(self).snapshot().reading,
    ;

    /// Arms the interrupt for `instant`, in place of any instant armed before.
    /// The instant need not lie in the future.
    fn set_compare(&mut self, instant: Self::Instant)
        requires
            old(self).wf(),
        ensures
            final(self).wf(),
            final(self).snapshot() == (Snapshot {
                target: Some(Self::instant_ticks(instant)),
                ..old(self).snapshot()
            }),
    ;

    /// Clears the pending compare interrupt. Without a pending interrupt
    /// nothing changes.
    fn clear_compare_flag(&mut self)
        requires
            old(self).wf(),
        ensures
            final(self).wf(),
            final(self).snapshot() == (Snapshot { flag: false, ..old(self).snapshot() }),
    ;

    /// The zero of the timeline.
    fn zero() -> (z: Self::Instant)
        ensures
            Self::instant_ticks(z) == 0,
    ;

    /// Fixes the baseline: the timebase shows zero, with nothing armed and
    /// nothing pending. The owner calls this once, before the first task runs.
    fn reset(&mut self)
        requires
            old(self).wf(),
            !old(self).snapshot().started,
        ensures
            final(self).wf(),
            final(self).snapshot() == (Snapshot {
                started: true,
                reading: 0,
                target: None,
                flag: false,
            }),
    ;

    /// Housekeeping at the end of the interrupt handler. It changes nothing
    /// that can be observed, whatever raised the interrupt.
    fn on_interrupt(&mut self)
        requires
            old(self).wf(),
        ensures
            final(self).wf(),
            final(self).snapshot() == old(self).snapshot(),
    {
    }

    /// Called when the scheduler enables the interrupt of the timebase. It
    /// changes nothing that can be observed, also when called twice.
    fn enable_timer(&mut self)
        requires
            old(self).wf(),
        ensures
            final(self).wf(),
            final(self).snapshot() == old(self).snapshot(),
    {
    }

    /// Called when the scheduler disables the interrupt of the timebase. It
    /// changes nothing that can be observed, also when called twice.
    fn disable_timer(&mut self)
        requires
            old(self).wf(),
        ensures
            final(self).wf(),
            final(self).snapshot() == old(self).snapshot(),
    {
    }
}

} // verus!
