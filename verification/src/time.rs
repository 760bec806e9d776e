//! Points and spans on a timeline measured in whole ticks.

use core::cmp::Ordering;
use vstd::prelude::*;
use vstd::std_specs::cmp::{PartialOrdSpec, PartialOrdSpecImpl};
use vstd::std_specs::ops::{AddSpecImpl, SubSpecImpl};

verus! {

/// A span of time, in ticks.
#[derive(Clone, Copy, Debug, PartialEq, Eq, Ord, Hash, Structural)]
pub struct Duration {
    ticks: u64,
}

/// A point in time, in ticks since the start of the timeline.
#[derive(Clone, Copy, Debug, PartialEq, Eq, Ord, Hash, Structural)]
pub struct Instant {
    ticks: u64,
}

impl View for Duration {
    type V = nat;

    /// The length of the span in ticks.
    closed spec fn view(&self) -> nat {
        self.ticks as nat
    }
}

impl View for Instant {
    type V = nat;

    /// The distance of the point from the start of the timeline, in ticks.
    closed spec fn view(&self) -> nat {
        self.ticks as nat
    }
}

impl Duration {
    /// The span of `ticks` ticks.
    pub fn from_ticks(ticks: u64) -> (d: Duration)
        ensures
            d@ == ticks,
    {
        Duration { ticks }
    }

    /// The length of the span in ticks.
    pub fn ticks(&self) -> (t: u64)
        ensures
            t == self@,
    {
        self.ticks
    }

    /// The span that `self` and `other` cover together, or `None` where its
    /// length cannot be represented.
    pub fn checked_add(self, other: Duration) -> (sum: Option<Duration>)
        ensures
            sum.is_some() <==> self@ + other@ <= u64::MAX,
            sum.is_some() ==> sum.unwrap()@ == self@ + other@,
    {
        match self.ticks.checked_add(other.ticks) {
            Some(ticks) => Some(Duration { ticks }),
            None => None,
        }
    }

    /// The length of every span fits in 64 bits.
    pub proof fn bounded(self)
        ensures
            self@ <= u64::MAX,
    {
    }

    /// Two spans of equal length are the same span.
    pub proof fn view_injective(a: Duration, b: Duration)
        requires
            a@ == b@,
        ensures
            a == b,
    {
    }
}

impl Instant {
    /// The point `ticks` ticks after the start of the timeline.
    pub fn from_ticks(ticks: u64) -> (i: Instant)
        ensures
            i@ == ticks,
    {
        Instant { ticks }
    }

    /// The start of the timeline.
    pub fn zero() -> (i: Instant)
        ensures
            i@ == 0,
    {
        Instant { ticks: 0 }
    }

    /// The distance of the point from the start of the timeline, in ticks.
    pub fn ticks(&self) -> (t: u64)
        ensures
            t == self@,
    {
        self.ticks
    }

    /// The point `d` after `self`, or `None` where it lies beyond the end of
    /// the representable timeline.
    pub fn checked_add(self, d: Duration) -> (later: Option<Instant>)
        ensures
            later.is_some() <==> self@ + d@ <= u64::MAX,
            later.is_some() ==> later.unwrap() == self.plus(d),
            later.is_some() ==> later.unwrap()@ == self@ + d@,
    {
        match self.ticks.checked_add(d.ticks) {
            Some(ticks) => Some(Instant { ticks }),
            None => None,
        }
    }

    /// The point `d` before `self`, or `None` where it lies before the start
    /// of the timeline.
    pub fn checked_sub(self, d: Duration) -> (earlier: Option<Instant>)
        ensures
            earlier.is_some() <==> d@ <= self@,
            earlier.is_some() ==> earlier.unwrap() == self.minus(d),
            earlier.is_some() ==> earlier.unwrap()@ == self@ - d@,
    {
        match self.ticks.checked_sub(d.ticks) {
            Some(ticks) => Some(Instant { ticks }),
            None => None,
        }
    }

    /// The span from `earlier` to `self`, or `None` where `earlier` lies after
    /// `self`.
    pub fn checked_duration_since(self, earlier: Instant) -> (span: Option<Duration>)
        ensures
            span.is_some() <==> earlier@ <= self@,
            span.is_some() ==> span.unwrap() == self.since(earlier),
            span.is_some() ==> span.unwrap()@ == self@ - earlier@,
    {
        match self.ticks.checked_sub(earlier.ticks) {
            Some(ticks) => Some(Duration { ticks }),
            None => None,
        }
    }

    /// The point `d` after `self`. Meaningful where `self@ + d@` fits in 64
    /// bits.
    pub closed spec fn plus(self, d: Duration) -> Instant {
        Instant { ticks: (self.ticks + d.ticks) as u64 }
    }

    /// The point `d` before `self`. Meaningful where `d@ <= self@`.
    pub closed spec fn minus(self, d: Duration) -> Instant {
        Instant { ticks: (self.ticks - d.ticks) as u64 }
    }

    /// The span from `earlier` to `self`. Meaningful where
    /// `earlier@ <= self@`.
    pub closed spec fn since(self, earlier: Instant) -> Duration {
        Duration { ticks: (self.ticks - earlier.ticks) as u64 }
    }

    /// Within the representable timeline, `plus` adds the tick counts.
    pub proof fn plus_ticks(self, d: Duration)
        requires
            self@ + d@ <= u64::MAX,
        ensures
            self.plus(d)@ == self@ + d@,
    {
    }

    /// Within the timeline, `minus` subtracts the tick counts.
    pub proof fn minus_ticks(self, d: Duration)
        requires
            d@ <= self@,
        ensures
            self.minus(d)@ == self@ - d@,
    {
    }

    /// Between two ordered points, `since` is the difference of the tick
    /// counts.
    pub proof fn since_ticks(self, earlier: Instant)
        requires
            earlier@ <= self@,
        ensures
            self.since(earlier)@ == self@ - earlier@,
    {
    }

    /// Every point lies within 64 bits of the start of the timeline.
    pub proof fn bounded(self)
        ensures
            self@ <= u64::MAX,
    {
    }

    /// Two points at the same distance from the start are the same point.
    pub proof fn view_injective(a: Instant, b: Instant)
        requires
            a@ == b@,
        ensures
            a == b,
    {
    }

    /// Moving forward by a span never moves a point backward.
    pub proof fn plus_is_not_earlier(a: Instant, d: Duration)
        requires
            a@ + d@ <= u64::MAX,
        ensures
            a@ <= a.plus(d)@,
    {
    }

    /// Moving forward by a span and back by the same span returns to the
    /// starting point.
    pub proof fn plus_then_minus(a: Instant, d: Duration)
        requires
            a@ + d@ <= u64::MAX,
        ensures
            a.plus(d).minus(d) == a,
    {
    }

    /// The span from a point to the point a span later is that span.
    pub proof fn plus_then_since(a: Instant, d: Duration)
        requires
            a@ + d@ <= u64::MAX,
        ensures
            a.plus(d).since(a) == d,
    {
    }
}

impl core::ops::Add<Duration> for Instant {
    type Output = Instant;

    /// The point `d` after `self`.
    fn add(self, d: Duration) -> (later: Instant)
        ensures
            later@ == self@ + d@,
    {
        Instant { ticks: self.ticks + d.ticks }
    }
}

impl AddSpecImpl<Duration> for Instant {
    open spec fn obeys_add_spec() -> bool {
        true
    }

    open spec fn add_req(self, d: Duration) -> bool {
        self@ + d@ <= u64::MAX
    }

    open spec fn add_spec(self, d: Duration) -> Instant {
        self.plus(d)
    }
}

impl core::ops::Sub<Duration> for Instant {
    type Output = Instant;

    /// The point `d` before `self`.
    fn sub(self, d: Duration) -> (earlier: Instant)
        ensures
            earlier@ == self@ - d@,
    {
        Instant { ticks: self.ticks - d.ticks }
    }
}

impl SubSpecImpl<Duration> for Instant {
    open spec fn obeys_sub_spec() -> bool {
        true
    }

    open spec fn sub_req(self, d: Duration) -> bool {
        d@ <= self@
    }

    open spec fn sub_spec(self, d: Duration) -> Instant {
        self.minus(d)
    }
}

impl core::ops::Sub<Instant> for Instant {
    type Output = Duration;

    /// The span from `earlier` to `self`.
    fn sub(self, earlier: Instant) -> (span: Duration)
        ensures
            span@ == self@ - earlier@,
    {
        Duration { ticks: self.ticks - earlier.ticks }
    }
}

impl SubSpecImpl<Instant> for Instant {
    open spec fn obeys_sub_spec() -> bool {
        true
    }

    open spec fn sub_req(self, earlier: Instant) -> bool {
        earlier@ <= self@
    }

    open spec fn sub_spec(self, earlier: Instant) -> Duration {
        self.since(earlier)
    }
}

/// The order of two tick counts.
pub open spec fn order_of(a: nat, b: nat) -> Option<Ordering> {
    if a < b {
        Some(Ordering::Less)
    } else if a == b {
        Some(Ordering::Equal)
    } else {
        Some(Ordering::Greater)
    }
}

impl PartialOrd for Instant {
    /// Instants are ordered as their tick counts are.
    fn partial_cmp(&self, other: &Instant) -> (r: Option<Ordering>) {
        if self.ticks < other.ticks {
            Some(Ordering::Less)
        } else if self.ticks == other.ticks {
            Some(Ordering::Equal)
        } else {
            Some(Ordering::Greater)
        }
    }
}

impl PartialOrdSpecImpl for Instant {
    open spec fn obeys_partial_cmp_spec() -> bool {
        true
    }

    open spec fn partial_cmp_spec(&self, other: &Instant) -> Option<Ordering> {
        order_of(self@, other@)
    }
}

impl PartialOrd for Duration {
    /// Durations are ordered as their lengths are.
    fn partial_cmp(&self, other: &Duration) -> (r: Option<Ordering>) {
        if self.ticks < other.ticks {
            Some(Ordering::Less)
        } else if self.ticks == other.ticks {
            Some(Ordering::Equal)
        } else {
            Some(Ordering::Greater)
        }
    }
}

impl PartialOrdSpecImpl for Duration {
    open spec fn obeys_partial_cmp_spec() -> bool {
        true
    }

    open spec fn partial_cmp_spec(&self, other: &Duration) -> Option<Ordering> {
        order_of(self@, other@)
    }
}

/// Instants are totally ordered by their tick counts: two instants compare
/// equal exactly when they are the same instant, and otherwise one of them
/// lies strictly before the other.
pub proof fn instant_order_is_total(a: Instant, b: Instant)
    ensures
        PartialOrdSpec::partial_cmp_spec(&a, &b) == order_of(a@, b@),
        PartialOrdSpec::partial_cmp_spec(&a, &b) == Some(Ordering::Equal) <==> a == b,
        PartialOrdSpec::partial_cmp_spec(&a, &b) == Some(Ordering::Less) <==> PartialOrdSpec::partial_cmp_spec(&b, &a) == Some(
            Ordering::Greater,
        ),
{
}

/// The order of instants is transitive.
pub proof fn instant_order_is_transitive(a: Instant, b: Instant, c: Instant)
    requires
        PartialOrdSpec::partial_cmp_spec(&a, &b) == Some(Ordering::Less),
        PartialOrdSpec::partial_cmp_spec(&b, &c) == Some(Ordering::Less),
    ensures
        PartialOrdSpec::partial_cmp_spec(&a, &c) == Some(Ordering::Less),
{
}

} // verus!
