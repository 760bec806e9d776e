use rtic_monotonic::service::{acknowledge, start};
use rtic_monotonic::{Duration, ExtendedTimer, Instant, Monotonic, Phase};

fn started(width: u32) -> ExtendedTimer {
    let mut timer = ExtendedTimer::new(width).unwrap();
    timer.reset();
    timer
}

#[test]
fn new_accepts_widths_from_1_to_32() {
    assert!(ExtendedTimer::new(0).is_none());
    assert!(ExtendedTimer::new(33).is_none());
    assert!(ExtendedTimer::new(u32::MAX).is_none());
    assert_eq!(ExtendedTimer::new(1).unwrap().modulus(), 2);
    assert_eq!(ExtendedTimer::new(8).unwrap().modulus(), 256);
    assert_eq!(ExtendedTimer::new(16).unwrap().modulus(), 65_536);
    assert_eq!(ExtendedTimer::new(32).unwrap().modulus(), 1 << 32);
}

#[test]
fn a_new_timer_is_idle_and_not_started() {
    let timer = ExtendedTimer::new(16).unwrap();
    assert!(!timer.is_started());
    assert!(timer.is_enabled());
    assert!(!timer.compare_flag());
    assert!(!timer.overflow_pending());
    assert!(!timer.interrupt_pending());
    assert_eq!(timer.target(), None);
}

#[test]
fn now_is_zero_before_reset() {
    let mut timer = ExtendedTimer::new(16).unwrap();
    assert_eq!(timer.now(), Instant::zero());
    timer.advance(1_234);
    assert_eq!(timer.now(), Instant::zero());
    timer.advance(70_000);
    assert_eq!(timer.now(), ExtendedTimer::zero());
}

#[test]
fn zero_baseline() {
    let mut timer = ExtendedTimer::new(16).unwrap();
    timer.advance(40_000);
    timer.set_compare(Instant::from_ticks(3));
    timer.reset();
    assert!(timer.is_started());
    assert_eq!(timer.now(), ExtendedTimer::zero());
    assert_eq!(timer.now().ticks(), 0);
    assert_eq!(timer.target(), None);
    assert!(!timer.compare_flag());
    assert!(!timer.overflow_pending());
}

#[test]
fn start_takes_the_first_reading() {
    let mut timer = ExtendedTimer::new(8).unwrap();
    timer.advance(300);
    assert_eq!(start(&mut timer), Instant::zero());
    assert!(timer.is_started());
    timer.advance(5);
    assert_eq!(timer.now(), Instant::from_ticks(5));
}

#[test]
fn monotonicity() {
    let mut timer = started(16);
    let mut last = timer.now();
    let steps: [u64; 8] = [0, 1, 100, 65_000, 435, 1, 65_535, 12];
    let mut total: u64 = 0;
    for n in steps {
        timer.advance(n);
        total += n;
        let t = timer.now();
        assert!(last <= t);
        assert_eq!(t, Instant::from_ticks(total));
        last = t;
    }
}

#[test]
fn now_counts_a_pending_wrap() {
    let mut timer = started(8);
    timer.advance(255);
    assert!(!timer.overflow_pending());
    timer.advance(1);
    assert!(timer.overflow_pending());
    assert_eq!(timer.now(), Instant::from_ticks(256));
    assert!(!timer.overflow_pending());
    assert_eq!(timer.now(), Instant::from_ticks(256));
}

#[test]
fn on_interrupt_keeps_the_time() {
    let mut timer = started(8);
    timer.advance(300);
    assert!(timer.overflow_pending());
    timer.on_interrupt();
    assert!(!timer.overflow_pending());
    assert_eq!(timer.now(), Instant::from_ticks(300));
    timer.on_interrupt();
    timer.on_interrupt();
    assert_eq!(timer.now(), Instant::from_ticks(300));
}

#[test]
fn overflow_extension() {
    let mut timer = started(16);
    timer.advance(12_345);
    let begin = timer.now();
    let mut interrupts = 0;
    for _ in 0..65_536u32 {
        timer.advance(1);
        if timer.overflow_pending() {
            interrupts += 1;
            timer.on_interrupt();
        }
    }
    assert_eq!(interrupts, 1);
    assert_eq!(timer.now(), begin + Duration::from_ticks(65_536));
    assert_eq!(timer.now().ticks(), 12_345 + 65_536);
}

#[test]
fn overflow_extension_over_many_periods() {
    let mut timer = started(4);
    let mut interrupts = 0;
    for tick in 1..=1_000u64 {
        timer.advance(1);
        if timer.interrupt_pending() {
            interrupts += 1;
            timer.on_interrupt();
        }
        assert_eq!(timer.now().ticks(), tick);
    }
    assert_eq!(interrupts, 1_000 / 16);
}

#[test]
fn a_second_wrap_before_service_is_lost() {
    let mut timer = started(8);
    timer.advance(256);
    timer.advance(256);
    assert_eq!(timer.now(), Instant::from_ticks(256));

    let mut timer = started(8);
    timer.advance(3 * 256 + 7);
    assert_eq!(timer.now(), Instant::from_ticks(256 + 7));
}

#[test]
fn advance_by_the_largest_step() {
    let mut timer = started(32);
    timer.advance(u64::MAX);
    assert!(timer.overflow_pending());
    assert_eq!(timer.now().ticks(), (1u64 << 32) + ((1u64 << 32) - 1));
}

#[test]
fn compare_fires_when_the_target_is_reached() {
    let mut timer = started(16);
    timer.set_compare(Instant::from_ticks(50));
    assert_eq!(timer.target(), Some(Instant::from_ticks(50)));
    timer.advance(49);
    assert!(!timer.compare_flag());
    assert!(!timer.interrupt_pending());
    timer.advance(1);
    assert!(timer.compare_flag());
    assert!(timer.interrupt_pending());
    assert_eq!(timer.target(), None);
}

#[test]
fn compare_fires_after_the_target_when_ticks_jump() {
    let mut timer = started(8);
    timer.set_compare(Instant::from_ticks(300));
    timer.advance(250);
    assert!(!timer.compare_flag());
    timer.advance(100);
    assert!(timer.compare_flag());
    assert_eq!(timer.now(), Instant::from_ticks(350));
}

#[test]
fn a_target_in_the_past_does_not_fire() {
    let mut timer = started(16);
    timer.advance(100);
    timer.set_compare(Instant::from_ticks(100));
    timer.advance(1_000);
    assert!(!timer.compare_flag());
    assert_eq!(timer.target(), Some(Instant::from_ticks(100)));
    timer.set_compare(Instant::from_ticks(40));
    timer.advance(1_000);
    assert!(!timer.compare_flag());
}

#[test]
fn single_armed_target() {
    let mut timer = started(16);
    timer.set_compare(Instant::from_ticks(10));
    timer.set_compare(Instant::from_ticks(30));
    assert_eq!(timer.target(), Some(Instant::from_ticks(30)));
    timer.advance(10);
    assert!(!timer.compare_flag());
    timer.advance(19);
    assert!(!timer.compare_flag());
    timer.advance(1);
    assert!(timer.compare_flag());
    timer.clear_compare_flag();
    timer.advance(100);
    assert!(!timer.compare_flag());
}

#[test]
fn single_armed_target_with_the_earlier_one_last() {
    let mut timer = started(16);
    timer.set_compare(Instant::from_ticks(30));
    timer.set_compare(Instant::from_ticks(10));
    timer.advance(10);
    assert!(timer.compare_flag());
    timer.clear_compare_flag();
    timer.advance(20);
    assert!(!timer.compare_flag());
    timer.advance(100);
    assert!(!timer.compare_flag());
}

#[test]
fn idempotent_flag_clear() {
    let mut timer = started(16);
    timer.advance(77);
    timer.set_compare(Instant::from_ticks(90));
    timer.clear_compare_flag();
    assert!(!timer.compare_flag());
    assert_eq!(timer.target(), Some(Instant::from_ticks(90)));
    assert!(timer.is_enabled());
    assert!(timer.is_started());
    assert_eq!(timer.now(), Instant::from_ticks(77));
    timer.advance(13);
    assert!(timer.compare_flag());
    timer.clear_compare_flag();
    timer.clear_compare_flag();
    assert!(!timer.compare_flag());
    assert_eq!(timer.now(), Instant::from_ticks(90));
}

#[test]
fn rearming_keeps_a_pending_flag() {
    let mut timer = started(16);
    timer.set_compare(Instant::from_ticks(5));
    timer.advance(5);
    timer.set_compare(Instant::from_ticks(9));
    assert!(timer.compare_flag());
    timer.clear_compare_flag();
    assert_eq!(timer.target(), Some(Instant::from_ticks(9)));
    timer.advance(4);
    assert!(timer.compare_flag());
}

#[test]
fn the_interrupt_line_follows_enable_and_disable() {
    let mut timer = started(16);
    timer.set_compare(Instant::from_ticks(5));
    timer.disable_timer();
    timer.disable_timer();
    assert!(!timer.is_enabled());
    timer.advance(5);
    assert!(timer.compare_flag());
    assert!(!timer.interrupt_pending());
    timer.enable_timer();
    timer.enable_timer();
    assert!(timer.is_enabled());
    assert!(timer.interrupt_pending());
    assert_eq!(timer.now(), Instant::from_ticks(5));
}

#[test]
fn the_counter_keeps_counting_while_disabled() {
    let mut timer = started(8);
    timer.disable_timer();
    timer.advance(200);
    assert_eq!(timer.now(), Instant::from_ticks(200));
    timer.advance(100);
    assert!(timer.overflow_pending());
    assert!(!timer.interrupt_pending());
    timer.enable_timer();
    assert!(timer.interrupt_pending());
    assert_eq!(timer.now(), Instant::from_ticks(300));
}

#[test]
fn the_extended_timer_keeps_its_interrupt_on() {
    assert!(!ExtendedTimer::DISABLE_INTERRUPT_ON_EMPTY_QUEUE);
}

#[test]
fn end_to_end_scenario() {
    let mut timer = ExtendedTimer::new(16).unwrap();
    timer.reset();
    assert_eq!(timer.now(), ExtendedTimer::zero());

    timer.advance(100);
    assert_eq!(timer.now(), ExtendedTimer::zero() + Duration::from_ticks(100));

    let wake = timer.now() + Duration::from_ticks(50);
    timer.set_compare(wake);
    timer.advance(50);
    assert!(timer.compare_flag());
    assert!(timer.interrupt_pending());

    timer.clear_compare_flag();
    timer.on_interrupt();
    assert!(!timer.compare_flag());
    assert_eq!(timer.now(), ExtendedTimer::zero() + Duration::from_ticks(150));
}

#[test]
fn acknowledge_clears_the_flag_and_keeps_the_time() {
    let mut timer = started(8);
    timer.set_compare(Instant::from_ticks(256));
    timer.advance(256);
    assert!(timer.compare_flag());
    assert!(timer.overflow_pending());
    acknowledge(&mut timer);
    assert!(!timer.compare_flag());
    assert!(!timer.overflow_pending());
    assert!(!timer.interrupt_pending());
    assert_eq!(timer.now(), Instant::from_ticks(256));
}

#[test]
fn the_phases_follow_the_life_cycle() {
    let mut timer = ExtendedTimer::new(8).unwrap();
    assert_eq!(timer.phase(), Phase::Uninitialized);
    timer.advance(10);
    timer.set_compare(Instant::from_ticks(3));
    assert_eq!(timer.phase(), Phase::Uninitialized);
    timer.reset();
    assert_eq!(timer.phase(), Phase::Idle);
    timer.advance(300);
    timer.on_interrupt();
    assert_eq!(timer.phase(), Phase::Idle);
    timer.set_compare(Instant::from_ticks(400));
    assert_eq!(timer.phase(), Phase::Armed);
    timer.disable_timer();
    timer.advance(99);
    assert_eq!(timer.now(), Instant::from_ticks(399));
    assert_eq!(timer.phase(), Phase::Armed);
    timer.advance(1);
    assert_eq!(timer.phase(), Phase::Idle);
    assert!(timer.compare_flag());
    timer.clear_compare_flag();
    timer.enable_timer();
    assert_eq!(timer.phase(), Phase::Idle);
    timer.set_compare(Instant::from_ticks(1));
    assert_eq!(timer.phase(), Phase::Armed);
    timer.advance(1_000);
    timer.on_interrupt();
    assert_eq!(timer.phase(), Phase::Armed);
}
