//! What the owner of a timebase does with it at start-up and in the interrupt
//! handler, for any timebase.

use crate::monotonic::{Monotonic, Snapshot};
use vstd::prelude::*;

verus! {

/// Fixes the baseline of `timer` and takes the first reading, which is the
/// zero of the timeline.
pub fn start<M: Monotonic>(timer: &mut M) -> (first: M::Instant)
    requires
        old(timer).wf(),
        !old(timer).snapshot().started,
    ensures
        final(timer).wf(),
        final(timer).snapshot() == (Snapshot {
            started: true,
            reading: 0,
            target: None,
            flag: false,
        }),
        M::instant_ticks(first) == 0,
{
    timer.reset();
    timer.now()
}

/// Serves the compare interrupt of `timer`: clears the flag, then does the
/// housekeeping. The time and the armed target stay as they are.
pub fn acknowledge<M: Monotonic>(timer: &mut M)
    requires
        old(timer).wf(),
    ensures
        final(timer).wf(),
        final(timer).snapshot() == (Snapshot { flag: false, ..old(timer).snapshot() }),
{
    timer.clear_compare_flag();
    timer.on_interrupt();
}

} // verus!
