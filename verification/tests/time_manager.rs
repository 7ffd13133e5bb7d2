use core::time::Duration;
use hat::delay::{delay_ms, Delay, DelayPoll};
use hat::systick::{timer_reload, SysTick};
use hat::time_manager::TimeManager;
use hat::yield_future::{yield_it, YieldPoll};

#[test]
fn schedule_keeps_delays_sorted_and_returns_the_earliest() {
    let mut tm: TimeManager<&'static str> = TimeManager::new();
    assert_eq!(tm.schedule(100, Duration::from_millis(500), "a"), 600);
    assert_eq!(tm.schedule(100, Duration::from_millis(100), "b"), 200);
    assert_eq!(tm.schedule(150, Duration::from_millis(450), "c"), 200);
    assert_eq!(tm.schedule(0, Duration::from_secs(1), "d"), 200);
    // "c" is due at 600 like "a", and goes after it
    assert_eq!(tm.timeout(200), (vec!["b"], Some(600)));
    assert_eq!(tm.timeout(600), (vec!["a", "c"], Some(1000)));
    assert_eq!(tm.timeout(600), (vec![], Some(1000)));
    assert_eq!(tm.timeout(1000), (vec!["d"], None));
}

#[test]
fn timeout_removes_every_delay_due_by_now_and_rearms() {
    let mut tm: TimeManager<u32> = TimeManager::new();
    tm.schedule(0, Duration::from_millis(5), 1);
    tm.schedule(0, Duration::from_millis(7), 2);
    tm.schedule(0, Duration::from_millis(9), 3);
    // the tick at 6 is past the delay due at 5: it still fires, and the timer is
    // re-armed for 7
    assert_eq!(tm.timeout(4), (vec![], Some(5)));
    assert_eq!(tm.timeout(6), (vec![1], Some(7)));
    assert_eq!(tm.timeout(10), (vec![2, 3], None));
    assert_eq!(tm.timeout(11), (vec![], None));
}

#[test]
fn two_pending_delays_both_fire() {
    let mut tm: TimeManager<&'static str> = TimeManager::new();
    assert_eq!(tm.schedule(0, Duration::from_millis(3), "x"), 3);
    assert_eq!(tm.schedule(1, Duration::from_millis(1), "y"), 2);
    let (fired, next) = tm.timeout(2);
    assert_eq!(fired, vec!["y"]);
    assert_eq!(next, Some(3));
    assert_eq!(tm.timeout(3), (vec!["x"], None));
}

#[test]
fn delay_is_ready_only_once_its_time_has_passed() {
    let mut d = delay_ms(500);
    assert_eq!(d.get_duration(), Duration::from_millis(500));
    assert!(d.can_poll(100));
    assert!(matches!(d.poll(100), DelayPoll::ScheduleAndWait));
    // woken early (another wake of the task): not ready before 600
    assert!(matches!(d.poll(300), DelayPoll::Wait));
    assert!(matches!(d.poll(599), DelayPoll::Wait));
    assert!(matches!(d.poll(600), DelayPoll::Ready));
    assert!(matches!(d.poll(700), DelayPoll::Ready));
    let mut d2 = Delay::new(Duration::from_millis(3));
    assert!(!d2.can_poll(u128::MAX));
    assert!(matches!(d2.poll(0), DelayPoll::ScheduleAndWait));
    assert!(matches!(d2.poll(2), DelayPoll::Wait));
    assert!(matches!(d2.poll(3), DelayPoll::Ready));
}

#[test]
fn yield_wakes_once_then_is_ready() {
    let mut y = yield_it();
    assert!(matches!(y.poll(), YieldPoll::WakeAndWait));
    assert!(matches!(y.poll(), YieldPoll::Ready));
}

#[test]
fn systick_fires_at_the_requested_instant() {
    let mut clock = SysTick::new();
    assert_eq!(clock.current_time_ms(), 0);
    clock.start_timer(3);
    assert_eq!(clock.tick(), None);
    assert_eq!(clock.tick(), None);
    assert_eq!(clock.tick(), Some(3));
    assert_eq!(clock.tick(), None);
    assert_eq!(clock.current_time_ms(), 4);
}

#[test]
fn systick_reload_for_common_clocks() {
    // 16 MHz: 16000 cycles per millisecond
    assert_eq!(timer_reload(16_000_000), 15_999);
    assert_eq!(timer_reload(8_000_000), 7_999);
    // 100 GHz would need 100_000_000 cycles: cut to 24 bits (0x5F5E100 & 0xFFFFFF)
    assert_eq!(timer_reload(100_000_000_000), (100_000_000u32 & 0x00FF_FFFF) - 1);
}

#[test]
fn can_schedule_checks_the_clock_range() {
    assert!(TimeManager::<u8>::can_schedule(100, &Duration::from_millis(500)));
    assert!(TimeManager::<u8>::can_schedule(u128::MAX, &Duration::from_millis(0)));
    assert!(!TimeManager::<u8>::can_schedule(u128::MAX, &Duration::from_millis(1)));
    assert!(!TimeManager::<u8>::can_schedule(u128::MAX - 4, &Duration::from_millis(5)));
}
