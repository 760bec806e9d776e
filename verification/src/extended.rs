//! A timebase on a narrow hardware counter, extended in software.
//!
//! The hardware is simulated: [`ExtendedTimer::advance`] lets ticks pass. The
//! counter wraps at a power of two and records the wrap in an overflow flag;
//! the software counts the wraps, so that the time keeps growing where the
//! counter starts over.

use crate::model::TimerModel;
use crate::monotonic::{Monotonic, Phase, Snapshot};
use crate::time::{Duration, Instant};
use vstd::arithmetic::div_mod::{lemma_mod_sub_multiples_vanish, lemma_small_mod};
use vstd::arithmetic::power2::{lemma2_to64, lemma_pow2_strictly_increases, pow2};
use vstd::bits::lemma_u64_shl_is_mul;
use vstd::prelude::*;

verus! {

/// A timer with a hardware counter of 1 to 32 bits and a 32-bit count of its
/// wraps.
#[derive(Debug)]
pub struct ExtendedTimer {
    modulus: u64,
    counter: u64,
    overflow: bool,
    high: u32,
    started: bool,
    target: Option<u64>,
    flag: bool,
    enabled: bool,
}

impl View for ExtendedTimer {
    type V = TimerModel;

    /// The state of the timer.
    closed spec fn view(&self) -> TimerModel {
        TimerModel {
            modulus: self.modulus as nat,
            counter: self.counter as nat,
            overflow: self.overflow,
            high: self.high as nat,
            started: self.started,
            target: match self.target {
                Some(t) => Some(t as nat),
                None => None,
            },
            flag: self.flag,
            enabled: self.enabled,
        }
    }
}

impl ExtendedTimer {
    /// A timer at power-on whose counter has `width` bits, or `None` where
    /// `width` is not between 1 and 32.
    pub fn new(width: u32) -> (timer: Option<ExtendedTimer>)
        ensures
            timer.is_some() <==> 1 <= width <= 32,
            timer.is_some() ==> timer.unwrap()@ == TimerModel::initial(pow2(width as nat)),
            timer.is_some() ==> timer.unwrap()@.wf(),
    {
        if width < 1 || width > 32 {
            return None;
        }
        proof {
            lemma2_to64();
            if width < 32 {
                lemma_pow2_strictly_increases(width as nat, 32);
            }
            if 1 < width {
                lemma_pow2_strictly_increases(1, width as nat);
            }
            lemma_u64_shl_is_mul(1, width as u64);
        }
        let modulus: u64 = 1u64 << (width as u64);
        Some(
            ExtendedTimer {
                modulus,
                counter: 0,
                overflow: false,
                high: 0,
                started: false,
                target: None,
                flag: false,
                enabled: true,
            },
        )
    }

    /// The value of the extended counter.
    fn count(&self) -> (c: u64)
        requires
            self@.wf(),
        ensures
            c == self@.ticks(),
    {
        let periods: u64 = if !self.overflow {
            self.high as u64
        } else if self.high == u32::MAX {
            0
        } else {
            self.high as u64 + 1
        };
        proof {
            self@.ticks_in_range();
        }
        periods * self.modulus + self.counter
    }

    /// The time that the timer shows, in ticks.
    fn shown(&self) -> (c: u64)
        requires
            self@.wf(),
        ensures
            c == self@.reading(),
    {
        if self.started {
            self.count()
        } else {
            0
        }
    }

    /// Counts the pending wrap of the counter, if there is one.
    fn settle(&mut self)
        requires
            old(self)@.wf(),
        ensures
            final(self)@ == old(self)@.fold(),
    {
        if self.overflow {
            self.high = if self.high == u32::MAX {
                0
            } else {
                self.high + 1
            };
            self.overflow = false;
        }
    }

    /// Lets `n` ticks of the hardware pass.
    pub fn advance(&mut self, n: u64)
        requires
            old(self)@.wf(),
        ensures
            final(self)@ == old(self)@.advance(n as nat),
            final(self)@.wf(),
    {
        let before: u64 = self.shown();
        let room: u64 = self.modulus - self.counter;
        if n >= room {
            proof {
                lemma_mod_sub_multiples_vanish(
                    (self.counter + n) as int,
                    self.modulus as int,
                );
            }
            self.overflow = true;
            self.counter = (n - room) % self.modulus;
        } else {
            proof {
                lemma_small_mod((self.counter + n) as nat, self.modulus as nat);
            }
            self.counter = self.counter + n;
        }
        assert(self@ == old(self)@.counted(n as nat));
        let after: u64 = self.shown();
        match self.target {
            Some(t) => {
                if before < t && t <= after {
                    self.flag = true;
                    self.target = None;
                }
            },
            None => {},
        }
    }

    /// The number of values of the hardware counter.
    pub fn modulus(&self) -> (m: u64)
        ensures
            m == self@.modulus,
    {
        self.modulus
    }

    /// Whether the counter has wrapped since the wraps were last counted.
    pub fn overflow_pending(&self) -> (b: bool)
        ensures
            b == self@.overflow,
    {
        self.overflow
    }

    /// Whether a compare interrupt is pending.
    pub fn compare_flag(&self) -> (b: bool)
        ensures
            b == self@.flag,
    {
        self.flag
    }

    /// Whether the interrupt line is raised: the line is enabled, and the
    /// comparator has fired or the counter has wrapped.
    pub fn interrupt_pending(&self) -> (b: bool)
        ensures
            b == self@.interrupt(),
    {
        self.enabled && (self.flag || self.overflow)
    }

    /// Whether the interrupt line is enabled.
    pub fn is_enabled(&self) -> (b: bool)
        ensures
            b == self@.enabled,
    {
        self.enabled
    }

    /// Whether the baseline has been fixed.
    pub fn is_started(&self) -> (b: bool)
        ensures
            b == self@.started,
    {
        self.started
    }

    /// The phase that the timer is in.
    pub fn phase(&self) -> (p: Phase)
        ensures
            p == self@.snapshot().phase(),
    {
        if !self.started {
            Phase::Uninitialized
        } else if self.target.is_some() {
            Phase::Armed
        } else {
            Phase::Idle
        }
    }

    /// The armed compare target, if there is one.
    pub fn target(&self) -> (t: Option<Instant>)
        ensures
            t.is_some() == self@.target.is_some(),
            t.is_some() ==> t.unwrap()@ == self@.target.unwrap(),
    {
        match self.target {
            Some(ticks) => Some(Instant::from_ticks(ticks)),
            None => None,
        }
    }
}

impl Monotonic for ExtendedTimer {
    /// The interrupt counts the wraps of the counter, so it has to stay on
    /// while no task is waiting.
    const DISABLE_INTERRUPT_ON_EMPTY_QUEUE: bool = false;

    type Instant = Instant;

    type Duration = Duration;

    open spec fn wf(&self) -> bool {
        self@.wf()
    }

    open spec fn snapshot(&self) -> Snapshot {
        self@.snapshot()
    }

    open spec fn instant_ticks(instant: Instant) -> nat {
        instant@
    }

    /// The time that the timer shows: zero until the baseline is fixed. A
    /// pending wrap of the counter is counted on the way.
    fn now(&mut self) -> (t: Instant)
        ensures
            final(self)@ == old(self)@.fold(),
    {
        proof {
            self@.fold_is_unobservable();
        }
        self.settle();
        Instant::from_ticks(self.shown())
    }

    fn set_compare(&mut self, instant: Instant)
        ensures
            final(self)@ == old(self)@.set_compare(instant@),
    {
        self.target = Some(instant.ticks());
    }

    fn clear_compare_flag(&mut self)
        ensures
            final(self)@ == old(self)@.clear_compare_flag(),
    {
        self.flag = false;
    }

    fn zero() -> (z: Instant) {
        Instant::zero()
    }

    /// Fixes the baseline: the counter and the count of its wraps start over.
    fn reset(&mut self)
        ensures
            final(self)@ == old(self)@.reset(),
    {
        self.counter = 0;
        self.overflow = false;
        self.high = 0;
        self.started = true;
        self.target = None;
        self.flag = false;
    }

    /// Counts the pending wrap of the counter, if there is one.
    fn on_interrupt(&mut self)
        ensures
            final(self)@ == old(self)@.fold(),
    {
        proof {
            self@.fold_is_unobservable();
        }
        self.settle();
    }

    /// Enables the interrupt line.
    fn enable_timer(&mut self)
        ensures
            final(self)@ == old(self)@.switch(true),
    {
        self.enabled = true;
    }

    /// Disables the interrupt line. The counter keeps counting.
    fn disable_timer(&mut self)
        ensures
            final(self)@ == old(self)@.switch(false),
    {
        self.enabled = false;
    }
}

} // verus!
