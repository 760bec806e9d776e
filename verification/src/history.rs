//! Sequences of operations on the timer, and what they add up to.

use crate::model::TimerModel;
use vstd::arithmetic::div_mod::{lemma_add_mod_noop_right, lemma_small_mod};
use vstd::prelude::*;

verus! {

/// One thing that happens to a timer whose baseline is fixed.
pub enum Step {
    /// The hardware counts this many ticks.
    Ticks(nat),
    /// The owner reads the time.
    Now,
    /// The owner arms this target.
    SetCompare(nat),
    /// The owner clears the compare flag.
    ClearCompareFlag,
    /// The owner does the housekeeping of the interrupt handler.
    OnInterrupt,
    /// The owner enables the interrupt line.
    EnableTimer,
    /// The owner disables the interrupt line.
    DisableTimer,
}

impl TimerModel {
    /// The state after one step.
    pub open spec fn step(self, step: Step) -> TimerModel {
        match step {
            Step::Ticks(n) => self.advance(n),
            Step::Now => self.fold(),
            Step::SetCompare(target) => self.set_compare(target),
            Step::ClearCompareFlag => self.clear_compare_flag(),
            Step::OnInterrupt => self.fold(),
            Step::EnableTimer => self.switch(true),
            Step::DisableTimer => self.switch(false),
        }
    }

    /// The state after the steps of `steps`, in their order.
    pub open spec fn run(self, steps: Seq<Step>) -> TimerModel
        decreases steps.len(),
    {
        if steps.len() == 0 {
            self
        } else {
            self.run(steps.drop_last()).step(steps.last())
        }
    }

    /// Whether every wrap of the counter is counted in the course of `steps`:
    /// the hardware never wraps a second time before the owner has counted
    /// the first.
    pub open spec fn counts_every_wrap_in(self, steps: Seq<Step>) -> bool
        decreases steps.len(),
    {
        if steps.len() == 0 {
            true
        } else {
            &&& self.counts_every_wrap_in(steps.drop_last())
            &&& match steps.last() {
                Step::Ticks(n) => self.run(steps.drop_last()).counts_every_wrap(n),
                _ => true,
            }
        }
    }
}

/// The number of ticks that pass in the course of `steps`.
pub open spec fn elapsed(steps: Seq<Step>) -> nat
    decreases steps.len(),
{
    if steps.len() == 0 {
        0
    } else {
        elapsed(steps.drop_last()) + match steps.last() {
            Step::Ticks(n) => n,
            _ => 0,
        }
    }
}

/// Overflow extension: whatever the owner and the hardware do in whatever
/// order, as long as every wrap of the counter is counted, the time grows by
/// exactly the ticks that have passed, wrapping at the range of the extended
/// counter.
pub proof fn run_adds_elapsed_modulo(start: TimerModel, steps: Seq<Step>)
    requires
        start.wf(),
        start.started,
        start.counts_every_wrap_in(steps),
    ensures
        start.run(steps).wf(),
        start.run(steps).started,
        start.run(steps).modulus == start.modulus,
        start.run(steps).reading() == (start.reading() + elapsed(steps)) % start.range(),
    decreases steps.len(),
{
    start.ticks_in_range();
    if steps.len() == 0 {
        lemma_small_mod(start.reading(), start.range());
    } else {
        let earlier = steps.drop_last();
        run_adds_elapsed_modulo(start, earlier);
        let before = start.run(earlier);
        match steps.last() {
            Step::Ticks(n) => {
                before.advance_adds_ticks_modulo(n);
                lemma_add_mod_noop_right(
                    n as int,
                    (start.reading() + elapsed(earlier)) as int,
                    start.range() as int,
                );
            },
            Step::Now => {
                before.fold_is_unobservable();
            },
            Step::OnInterrupt => {
                before.fold_is_unobservable();
            },
            _ => {},
        }
    }
}

/// While the extended counter stays within its range as well, the time grows
/// by exactly the ticks that have passed. In particular it never runs
/// backward.
pub proof fn run_adds_elapsed(start: TimerModel, steps: Seq<Step>)
    requires
        start.wf(),
        start.started,
        start.counts_every_wrap_in(steps),
        start.ticks() + elapsed(steps) < start.range(),
    ensures
        start.run(steps).reading() == start.reading() + elapsed(steps),
        start.reading() <= start.run(steps).reading(),
{
    run_adds_elapsed_modulo(start, steps);
    lemma_small_mod(start.reading() + elapsed(steps), start.range());
}

} // verus!
