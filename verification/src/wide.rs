//! A timebase on a hardware counter of 64 bits, which needs no extension and
//! no housekeeping.
//!
//! The hardware is simulated: [`WideTimer::advance`] lets ticks pass.

use crate::monotonic::{Monotonic, Phase, Snapshot};
use crate::time::{Duration, Instant};
use vstd::prelude::*;

verus! {

/// The number of values of a 64-bit counter.
pub open spec fn wide_range() -> nat {
    0x1_0000_0000_0000_0000
}

/// Whether a counter that wraps at `wide_range()` takes the value `target` on
/// one of the `n` ticks that follow the value `before`.
pub open spec fn passes(before: nat, n: nat, target: nat) -> bool {
    ||| before < target <= before + n
    ||| before < target + wide_range() <= before + n
}

/// What can be observed of the timer after `n` ticks of the hardware. Until
/// the baseline is fixed nothing changes. From then on the reading grows by
/// `n`, wrapping at `wide_range()`, and where the counter passes the armed
/// target the comparator fires: the flag is raised and the target is spent.
pub open spec fn after_ticks(s: Snapshot, n: nat) -> Snapshot {
    if !s.started {
        s
    } else if s.target.is_some() && passes(s.reading, n, s.target.unwrap()) {
        Snapshot { reading: (s.reading + n) % wide_range(), target: None, flag: true, ..s }
    } else {
        Snapshot { reading: (s.reading + n) % wide_range(), ..s }
    }
}

/// A timer with a free-running counter of 64 bits.
#[derive(Debug)]
pub struct WideTimer {
    counter: u64,
    started: bool,
    target: Option<u64>,
    flag: bool,
}

impl View for WideTimer {
    type V = Snapshot;

    /// What can be observed of the timer. It shows zero until the baseline is
    /// fixed.
    closed spec fn view(&self) -> Snapshot {
        Snapshot {
            started: self.started,
            reading: if self.started {
                self.counter as nat
            } else {
                0
            },
            target: match self.target {
                Some(t) => Some(t as nat),
                None => None,
            },
            flag: self.flag,
        }
    }
}

impl WideTimer {
    /// A timer at power-on: not started, nothing armed, nothing pending.
    pub fn new() -> (timer: WideTimer)
        ensures
            timer@ == (Snapshot { started: false, reading: 0, target: None, flag: false }),
    {
        WideTimer { counter: 0, started: false, target: None, flag: false }
    }

    /// Lets `n` ticks of the hardware pass.
    pub fn advance(&mut self, n: u64)
        ensures
            final(self)@ == after_ticks(old(self)@, n as nat),
    {
        if !self.started {
            return;
        }
        let before: u64 = self.counter;
        let room: u64 = u64::MAX - before;
        let wrapped: bool = n > room;
        let after: u64 = if wrapped {
            n - room - 1
        } else {
            before + n
        };
        self.counter = after;
        match self.target {
            Some(t) => {
                let hit: bool = if wrapped {
                    before < t || t <= after
                } else {
                    before < t && t <= after
                };
                if hit {
                    self.flag = true;
                    self.target = None;
                }
            },
            None => {},
        }
    }

    /// Whether a compare interrupt is pending.
    pub fn compare_flag(&self) -> (b: bool)
        ensures
            b == self@.flag,
    {
        self.flag
    }

    /// Whether the baseline has been fixed.
    pub fn is_started(&self) -> (b: bool)
        ensures
            b == self@.started,
    {
        self.started
    }

    /// The phase that the timer is in.
    pub fn phase(&self) -> (p: Phase)
        ensures
            p == self@.phase(),
    {
        if !self.started {
            Phase::Uninitialized
        } else if self.target.is_some() {
            Phase::Armed
        } else {
            Phase::Idle
        }
    }

    /// The armed compare target, if there is one.
    pub fn target(&self) -> (t: Option<Instant>)
        ensures
            t.is_some() == self@.target.is_some(),
            t.is_some() ==> t.unwrap()@ == self@.target.unwrap(),
    {
        match self.target {
            Some(ticks) => Some(Instant::from_ticks(ticks)),
            None => None,
        }
    }
}

/// The wide timer has no housekeeping to do and nothing to switch off: it
/// keeps the optional operations and the capability flag as the trait gives
/// them.
impl Monotonic for WideTimer {
    type Instant = Instant;

    type Duration = Duration;

    open spec fn wf(&self) -> bool {
        true
    }

    open spec fn snapshot(&self) -> Snapshot {
        self@
    }

    open spec fn instant_ticks(instant: Instant) -> nat {
        instant@
    }

    fn now(&mut self) -> (t: Instant) {
        if self.started {
            Instant::from_ticks(self.counter)
        } else {
            Instant::zero()
        }
    }

    fn set_compare(&mut self, instant: Instant) {
        self.target = Some(instant.ticks());
    }

    fn clear_compare_flag(&mut self) {
        self.flag = false;
    }

    fn zero() -> (z: Instant) {
        Instant::zero()
    }

    fn reset(&mut self) {
        self.counter = 0;
        self.started = true;
        self.target = None;
        self.flag = false;
    }
}

/// While the counter does not wrap, the time of the wide timer never runs
/// backward: `n` ticks add `n` to the reading.
pub proof fn wide_reading_never_decreases(s: Snapshot, n: nat)
    requires
        s.started,
        s.reading + n < wide_range(),
    ensures
        after_ticks(s, n).reading == s.reading + n,
        s.reading <= after_ticks(s, n).reading,
{
}

/// The comparator of the wide timer fires for the armed target and for
/// nothing else, and then at or after the target while the counter does not
/// wrap.
pub proof fn wide_fires_for_the_target(s: Snapshot, n: nat)
    requires
        !s.flag,
        after_ticks(s, n).flag,
    ensures
        s.started,
        s.target.is_some(),
        after_ticks(s, n).target.is_none(),
        s.reading + n < wide_range() ==> s.target.unwrap() <= after_ticks(s, n).reading,
{
}

} // verus!
