use rtic_monotonic::service::{acknowledge, start};
use rtic_monotonic::{Duration, Instant, Monotonic, Phase, WideTimer};

fn started_wide() -> WideTimer {
    let mut timer = WideTimer::new();
    timer.reset();
    timer
}

#[test]
fn the_interrupt_is_disabled_on_an_empty_queue_by_default() {
    assert!(WideTimer::DISABLE_INTERRUPT_ON_EMPTY_QUEUE);
}

#[test]
fn a_new_wide_timer_is_idle_and_not_started() {
    let mut timer = WideTimer::new();
    assert!(!timer.is_started());
    assert!(!timer.compare_flag());
    assert_eq!(timer.target(), None);
    assert_eq!(timer.now(), WideTimer::zero());
}

#[test]
fn the_wide_timer_shows_zero_before_reset() {
    let mut timer = WideTimer::new();
    timer.set_compare(Instant::from_ticks(5));
    timer.advance(10);
    assert_eq!(timer.now(), Instant::zero());
    assert!(!timer.compare_flag());
    assert_eq!(timer.target(), Some(Instant::from_ticks(5)));
}

#[test]
fn the_wide_timer_starts_at_zero() {
    let mut timer = WideTimer::new();
    timer.advance(10);
    assert_eq!(start(&mut timer), Instant::zero());
    assert!(timer.is_started());
    assert_eq!(timer.now(), WideTimer::zero());
    assert_eq!(timer.target(), None);
}

#[test]
fn the_wide_timer_counts_ticks() {
    let mut timer = started_wide();
    let mut last = timer.now();
    let mut total: u64 = 0;
    for n in [0u64, 1, 99, 1 << 40, 5] {
        timer.advance(n);
        total += n;
        let t = timer.now();
        assert!(last <= t);
        assert_eq!(t, Instant::from_ticks(total));
        last = t;
    }
}

#[test]
fn the_wide_timer_wraps_at_64_bits() {
    let mut timer = started_wide();
    timer.advance(u64::MAX);
    assert_eq!(timer.now(), Instant::from_ticks(u64::MAX));
    timer.advance(1);
    assert_eq!(timer.now(), Instant::zero());
    timer.advance(10);
    timer.advance(u64::MAX);
    assert_eq!(timer.now(), Instant::from_ticks(9));
}

#[test]
fn the_wide_comparator_fires_once() {
    let mut timer = started_wide();
    timer.advance(100);
    let wake = timer.now() + Duration::from_ticks(50);
    timer.set_compare(wake);
    timer.advance(49);
    assert!(!timer.compare_flag());
    timer.advance(1);
    assert!(timer.compare_flag());
    assert_eq!(timer.target(), None);
    acknowledge(&mut timer);
    assert!(!timer.compare_flag());
    assert_eq!(timer.now(), Instant::from_ticks(150));
    timer.advance(1_000);
    assert!(!timer.compare_flag());
}

#[test]
fn the_wide_comparator_fires_across_the_wrap() {
    let mut timer = started_wide();
    timer.advance(u64::MAX - 1);
    timer.set_compare(Instant::from_ticks(3));
    timer.advance(4);
    assert!(!timer.compare_flag());
    assert_eq!(timer.now(), Instant::from_ticks(2));
    timer.advance(1);
    assert!(timer.compare_flag());

    let mut timer = started_wide();
    timer.advance(u64::MAX - 1);
    timer.set_compare(Instant::from_ticks(u64::MAX));
    timer.advance(5);
    assert!(timer.compare_flag());
    assert_eq!(timer.now(), Instant::from_ticks(3));
}

#[test]
fn a_past_target_of_the_wide_timer_does_not_fire() {
    let mut timer = started_wide();
    timer.advance(100);
    timer.set_compare(Instant::from_ticks(100));
    timer.advance(1_000);
    assert!(!timer.compare_flag());
    assert_eq!(timer.target(), Some(Instant::from_ticks(100)));
}

#[test]
fn the_wide_timer_keeps_only_the_last_target() {
    let mut timer = started_wide();
    timer.set_compare(Instant::from_ticks(10));
    timer.set_compare(Instant::from_ticks(30));
    timer.advance(29);
    assert!(!timer.compare_flag());
    timer.advance(1);
    assert!(timer.compare_flag());
}

#[test]
fn the_optional_operations_do_nothing_by_default() {
    let mut timer = started_wide();
    timer.advance(9);
    timer.set_compare(Instant::from_ticks(12));
    timer.on_interrupt();
    timer.enable_timer();
    timer.disable_timer();
    timer.disable_timer();
    assert_eq!(timer.now(), Instant::from_ticks(9));
    assert_eq!(timer.target(), Some(Instant::from_ticks(12)));
    assert!(!timer.compare_flag());
    timer.advance(3);
    assert!(timer.compare_flag());
    timer.on_interrupt();
    timer.enable_timer();
    assert!(timer.compare_flag());
    timer.clear_compare_flag();
    timer.clear_compare_flag();
    assert!(!timer.compare_flag());
    assert_eq!(timer.now(), Instant::from_ticks(12));
}

#[test]
fn the_phases_of_the_wide_timer() {
    let mut timer = WideTimer::new();
    assert_eq!(timer.phase(), Phase::Uninitialized);
    timer.set_compare(Instant::from_ticks(3));
    assert_eq!(timer.phase(), Phase::Uninitialized);
    timer.reset();
    assert_eq!(timer.phase(), Phase::Idle);
    timer.set_compare(Instant::from_ticks(3));
    assert_eq!(timer.phase(), Phase::Armed);
    timer.advance(2);
    assert_eq!(timer.phase(), Phase::Armed);
    timer.advance(1);
    assert_eq!(timer.phase(), Phase::Idle);
    timer.clear_compare_flag();
    assert_eq!(timer.phase(), Phase::Idle);
}
