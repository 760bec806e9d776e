//! The state of a timebase that extends a narrow wrapping counter, as a
//! mathematical state machine, and the laws that its transitions obey.

use crate::monotonic::{Phase, Snapshot};
use vstd::arithmetic::div_mod::{
    lemma_fundamental_div_mod, lemma_mod_pos_bound, lemma_mod_sub_multiples_vanish,
    lemma_small_mod,
};
use vstd::prelude::*;

verus! {

/// The number of values of the software-kept period count.
pub open spec fn period_limit() -> nat {
    0x1_0000_0000
}

/// The state of the timer: what the hardware holds and what the software
/// keeps beside it.
pub struct TimerModel {
    /// The number of values of the hardware counter.
    pub modulus: nat,
    /// The hardware counter, which wraps to zero at `modulus`.
    pub counter: nat,
    /// Whether the counter has wrapped since the wraps were last counted.
    pub overflow: bool,
    /// The number of wraps that have been counted.
    pub high: nat,
    /// Whether the baseline has been fixed.
    pub started: bool,
    /// The armed compare target, in ticks.
    pub target: Option<nat>,
    /// Whether a compare interrupt is pending.
    pub flag: bool,
    /// Whether the interrupt line of the timer is enabled.
    pub enabled: bool,
}

impl TimerModel {
    /// The state at power-on of a timer whose counter has `modulus` values.
    pub open spec fn initial(modulus: nat) -> TimerModel {
        TimerModel {
            modulus,
            counter: 0,
            overflow: false,
            high: 0,
            started: false,
            target: None,
            flag: false,
            enabled: true,
        }
    }

    /// The invariant of the state.
    pub open spec fn wf(self) -> bool {
        &&& 2 <= self.modulus <= period_limit()
        &&& self.counter < self.modulus
        &&& self.high < period_limit()
    }

    /// The number of completed periods of the counter, counted or not yet
    /// counted. It wraps at `period_limit()`.
    pub open spec fn periods(self) -> nat {
        (self.high + if self.overflow { 1nat } else { 0nat }) % period_limit()
    }

    /// The value of the extended counter.
    pub open spec fn ticks(self) -> nat {
        self.periods() * self.modulus + self.counter
    }

    /// The number of values of the extended counter.
    pub open spec fn range(self) -> nat {
        period_limit() * self.modulus
    }

    /// The time that the timer shows: zero until the baseline is fixed, the
    /// extended counter from then on.
    pub open spec fn reading(self) -> nat {
        if self.started {
            self.ticks()
        } else {
            0
        }
    }

    /// What the owner of the timer can observe.
    pub open spec fn snapshot(self) -> Snapshot {
        Snapshot {
            started: self.started,
            reading: self.reading(),
            target: self.target,
            flag: self.flag,
        }
    }

    /// Whether the interrupt line is raised.
    pub open spec fn interrupt(self) -> bool {
        self.enabled && (self.flag || self.overflow)
    }

    /// Whether `n` more ticks can pass without a wrap of the counter going
    /// uncounted: the overflow flag records one wrap, not two.
    pub open spec fn counts_every_wrap(self, n: nat) -> bool {
        if self.overflow {
            self.counter + n < self.modulus
        } else {
            self.counter + n < 2 * self.modulus
        }
    }

    /// The number of wraps of the counter that go uncounted during the next
    /// `n` ticks: the overflow flag holds one wrap, and every further one is
    /// lost.
    pub open spec fn lost_wraps(self, n: nat) -> nat {
        let pending = (self.counter + n) / self.modulus + if self.overflow {
            1nat
        } else {
            0nat
        };
        if pending <= 1 {
            0
        } else {
            (pending - 1) as nat
        }
    }

    /// The hardware after `n` ticks, the comparator left aside.
    pub open spec fn counted(self, n: nat) -> TimerModel {
        TimerModel {
            counter: (self.counter + n) % self.modulus,
            overflow: self.overflow || self.counter + n >= self.modulus,
            ..self
        }
    }

    /// Whether the time passes the armed target during the next `n` ticks.
    pub open spec fn reaches_target(self, n: nat) -> bool {
        &&& self.target.is_some()
        &&& self.reading() < self.target.unwrap()
        &&& self.target.unwrap() <= self.counted(n).reading()
    }

    /// The state after `n` ticks of the hardware. Where the time passes the
    /// armed target, the comparator fires: the flag is raised and the target is
    /// spent.
    pub open spec fn advance(self, n: nat) -> TimerModel {
        if self.reaches_target(n) {
            TimerModel { target: None, flag: true, ..self.counted(n) }
        } else {
            self.counted(n)
        }
    }

    /// The state after the pending wrap, if any, has been counted.
    pub open spec fn fold(self) -> TimerModel {
        TimerModel { high: self.periods(), overflow: false, ..self }
    }

    /// The state after `target` has been armed.
    pub open spec fn set_compare(self, target: nat) -> TimerModel {
        TimerModel { target: Some(target), ..self }
    }

    /// The state after the compare flag has been cleared.
    pub open spec fn clear_compare_flag(self) -> TimerModel {
        TimerModel { flag: false, ..self }
    }

    /// The state after the baseline has been fixed.
    pub open spec fn reset(self) -> TimerModel {
        TimerModel {
            counter: 0,
            overflow: false,
            high: 0,
            started: true,
            target: None,
            flag: false,
            ..self
        }
    }

    /// The state after the interrupt line has been switched.
    pub open spec fn switch(self, enabled: bool) -> TimerModel {
        TimerModel { enabled, ..self }
    }

    /// The extended counter stays below its range.
    pub proof fn ticks_in_range(self)
        requires
            self.wf(),
        ensures
            self.ticks() < self.range(),
            self.range() <= 0x1_0000_0000_0000_0000,
            self.periods() < period_limit(),
    {
        let p = self.periods();
        let m = self.modulus;
        assert(p * m + m <= 0x1_0000_0000 * m) by (nonlinear_arith)
            requires
                p + 1 <= 0x1_0000_0000,
        ;
        assert(0x1_0000_0000 * m <= 0x1_0000_0000_0000_0000) by (nonlinear_arith)
            requires
                m <= 0x1_0000_0000,
        ;
    }

    /// Every transition keeps the invariant.
    pub proof fn transitions_keep_wf(self, n: nat, target: nat, enabled: bool)
        requires
            self.wf(),
        ensures
            self.advance(n).wf(),
            self.fold().wf(),
            self.set_compare(target).wf(),
            self.clear_compare_flag().wf(),
            self.reset().wf(),
            self.switch(enabled).wf(),
    {
    }

    /// Counting the pending wrap changes nothing that can be observed.
    pub proof fn fold_is_unobservable(self)
        requires
            self.wf(),
        ensures
            self.fold().ticks() == self.ticks(),
            self.fold().snapshot() == self.snapshot(),
            !self.fold().overflow,
    {
    }

    /// What `n` ticks of the hardware add to the extended counter, whether the
    /// wraps are counted or not: `n`, less one period of the counter for
    /// every wrap that is lost, wrapping at the range of the extended counter.
    /// No wrap is lost exactly where `counts_every_wrap` holds.
    pub proof fn advance_loses_uncounted_wraps(self, n: nat)
        requires
            self.wf(),
        ensures
            self.lost_wraps(n) * self.modulus <= self.ticks() + n,
            self.advance(n).ticks() == (self.ticks() + n - self.lost_wraps(n) * self.modulus)
                % (self.range() as int),
            self.counts_every_wrap(n) <==> self.lost_wraps(n) == 0,
    {
        let m = self.modulus;
        let sum = self.counter + n;
        let q = sum / m;
        let r = sum % m;
        let p = self.periods();
        let lost = self.lost_wraps(n);
        let range = self.range();
        let after = self.counted(n);
        self.ticks_in_range();
        lemma_fundamental_div_mod(sum as int, m as int);
        lemma_mod_pos_bound(sum as int, m as int);
        assert(q >= 1 <==> sum >= m) by (nonlinear_arith)
            requires
                sum == m * q + r,
                0 <= r < m,
        ;
        assert(q >= 2 <==> sum >= 2 * m) by (nonlinear_arith)
            requires
                sum == m * q + r,
                0 <= r < m,
        ;
        assert(self.advance(n).ticks() == after.ticks());
        let kept: nat = (q - lost) as nat;
        assert(kept <= 1);
        assert(lost * m <= sum) by (nonlinear_arith)
            requires
                sum == m * q + r,
                lost <= q,
        ;
        assert(p * m + sum - lost * m == (p + kept) * m + r) by (nonlinear_arith)
            requires
                sum == m * q + r,
                kept == q - lost,
        ;
        if p + kept < period_limit() {
            assert(after.periods() == p + kept);
            assert((p + kept) * m + m <= range) by (nonlinear_arith)
                requires
                    p + kept + 1 <= period_limit(),
                    range == period_limit() * m,
            ;
            lemma_small_mod((p + kept) * m + r, range);
        } else {
            assert(after.periods() == 0);
            assert((p + kept) * m + r - range == r) by (nonlinear_arith)
                requires
                    p + kept == period_limit(),
                    range == period_limit() * m,
            ;
            lemma_mod_sub_multiples_vanish(((p + kept) * m + r) as int, range as int);
            lemma_small_mod(r, range);
        }
    }

    /// While every wrap of the counter is counted, `n` ticks of the hardware
    /// add `n` to the extended counter, which wraps at its range.
    pub proof fn advance_adds_ticks_modulo(self, n: nat)
        requires
            self.wf(),
            self.counts_every_wrap(n),
        ensures
            self.advance(n).ticks() == (self.ticks() + n) % self.range(),
    {
        self.advance_loses_uncounted_wraps(n);
    }

    /// While every wrap of the counter is counted and the extended counter
    /// stays within its range, `n` ticks of the hardware add `n` to the
    /// extended counter.
    pub proof fn advance_adds_ticks(self, n: nat)
        requires
            self.wf(),
            self.counts_every_wrap(n),
            self.ticks() + n < self.range(),
        ensures
            self.advance(n).ticks() == self.ticks() + n,
            self.advance(n).reading() == if self.started {
                self.reading() + n
            } else {
                0
            },
    {
        self.advance_adds_ticks_modulo(n);
        lemma_small_mod(self.ticks() + n, self.range());
    }

    /// How the ticks are told off does not matter: under the conditions of
    /// `advance_adds_ticks`, `a` ticks followed by `b` ticks lead to the state
    /// that `a + b` ticks lead to at once.
    pub proof fn advance_composes(self, a: nat, b: nat)
        requires
            self.wf(),
            self.counts_every_wrap(a + b),
            self.ticks() + a + b < self.range(),
        ensures
            self.advance(a).counts_every_wrap(b),
            self.advance(a).advance(b) == self.advance(a + b),
    {
        let m = self.modulus;
        let c = self.counter;
        let first = self.advance(a);
        if c + a < m {
            lemma_small_mod(c + a, m);
        } else {
            lemma_mod_sub_multiples_vanish((c + a) as int, m as int);
            lemma_small_mod((c + a - m) as nat, m);
        }
        if c + a + b < m {
            lemma_small_mod(c + a + b, m);
        } else {
            lemma_mod_sub_multiples_vanish((c + a + b) as int, m as int);
            lemma_small_mod((c + a + b - m) as nat, m);
        }
        if first.counter + b < m {
            lemma_small_mod(first.counter + b, m);
        } else {
            lemma_mod_sub_multiples_vanish((first.counter + b) as int, m as int);
            lemma_small_mod((first.counter + b - m) as nat, m);
        }
        self.advance_adds_ticks(a);
        self.advance_adds_ticks(a + b);
        first.advance_adds_ticks(b);
        assert(first.counted(b).counter == self.counted(a + b).counter);
        assert(first.counted(b).overflow == self.counted(a + b).overflow);
    }

    /// The time never runs backward: under the conditions of
    /// `advance_adds_ticks`, a reading taken after `n` more ticks is not
    /// earlier than one taken before them.
    pub proof fn reading_never_decreases(self, n: nat)
        requires
            self.wf(),
            self.counts_every_wrap(n),
            self.ticks() + n < self.range(),
        ensures
            self.reading() <= self.advance(n).reading(),
    {
        self.advance_adds_ticks(n);
    }

    /// The phases follow one another as the life of a timebase prescribes.
    /// Fixing the baseline leads to `Idle`. Once the baseline is fixed no
    /// transition leads back to `Uninitialized`: arming a target leads to
    /// `Armed`, the passing of ticks leads from `Armed` to `Idle` exactly where
    /// the comparator fires and leaves `Idle` alone, and the other transitions
    /// keep the phase.
    pub proof fn phases_follow_the_life_cycle(self, n: nat, target: nat, enabled: bool)
        requires
            self.wf(),
        ensures
            self.reset().snapshot().phase() == Phase::Idle,
            self.started ==> self.set_compare(target).snapshot().phase() == Phase::Armed,
            self.started ==> self.advance(n).snapshot().phase() == if self.reaches_target(n) {
                Phase::Idle
            } else {
                self.snapshot().phase()
            },
            self.reaches_target(n) ==> self.advance(n).flag,
            self.fold().snapshot().phase() == self.snapshot().phase(),
            self.clear_compare_flag().snapshot().phase() == self.snapshot().phase(),
            self.switch(enabled).snapshot().phase() == self.snapshot().phase(),
            !self.started ==> self.advance(n).snapshot().phase() == Phase::Uninitialized,
            !self.started ==> self.set_compare(target).snapshot().phase() == Phase::Uninitialized,
    {
    }

    /// Right after the baseline is fixed the timer shows zero, with nothing
    /// armed and nothing pending.
    pub proof fn reset_shows_zero(self)
        requires
            self.wf(),
        ensures
            self.reset().reading() == 0,
            self.reset().started,
            self.reset().target.is_none(),
            !self.reset().flag,
            !self.reset().overflow,
    {
    }

    /// Of two targets armed one after the other only the second counts: the
    /// state is the one that arming the second alone gives, and as the ticks
    /// pass the comparator fires for the second target and no other.
    pub proof fn last_target_wins(self, first: nat, second: nat, n: nat)
        requires
            self.wf(),
            !self.flag,
        ensures
            self.set_compare(first).set_compare(second) == self.set_compare(second),
            ({
                let armed = self.set_compare(first).set_compare(second);
                armed.advance(n).flag <==> self.reading() < second <= armed.advance(n).reading()
            }),
    {
    }

    /// The comparator fires at or after the armed target, never before it.
    pub proof fn fires_at_or_after_target(self, n: nat)
        requires
            self.wf(),
            !self.flag,
            self.advance(n).flag,
        ensures
            self.target.is_some(),
            self.target.unwrap() <= self.advance(n).reading(),
            self.advance(n).target.is_none(),
    {
    }

    /// Clearing the compare flag when none is pending changes nothing, and
    /// clearing it twice is the same as clearing it once.
    pub proof fn clear_is_idempotent(self)
        ensures
            !self.flag ==> self.clear_compare_flag() == self,
            self.clear_compare_flag().clear_compare_flag() == self.clear_compare_flag(),
    {
    }

    /// Switching the interrupt line to the state it is in changes nothing, and
    /// switching it changes nothing that can be observed.
    pub proof fn switch_is_redundant(self, enabled: bool)
        ensures
            self.enabled == enabled ==> self.switch(enabled) == self,
            self.switch(enabled).switch(enabled) == self.switch(enabled),
            self.switch(enabled).snapshot() == self.snapshot(),
    {
    }

    /// One full period of the counter, with the wrap counted when it happens,
    /// adds exactly `modulus` to the time: `k` ticks up to the service of the
    /// interrupt and the rest of the period after it.
    pub proof fn full_period_adds_modulus(self, k: nat)
        requires
            self.wf(),
            self.started,
            !self.overflow,
            k <= self.modulus,
            self.ticks() + self.modulus < self.range(),
        ensures
            self.advance(k).fold().advance((self.modulus - k) as nat).fold().reading()
                == self.reading() + self.modulus,
    {
        let rest = (self.modulus - k) as nat;
        self.advance_adds_ticks(k);
        let a = self.advance(k);
        a.fold_is_unobservable();
        let b = a.fold();
        assert(b.wf());
        b.advance_adds_ticks(rest);
        let c = b.advance(rest);
        c.fold_is_unobservable();
    }
}

} // verus!
