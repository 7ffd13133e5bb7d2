use core::alloc::Layout;
use core::time::Duration;
use hat::futures::time::{delay, DelayPoll, DelayState};
use hat::no_std::alloc_rtos::MempoolAlloc;
use hat::no_std::alloc_rust::{ArenaAlloc, ARENA_SIZE};
use hat::no_std::arc::{padding_needed_for, ArcInner};
use hat::no_std::rtos::rtos_status;
use hat::peripherals::gpio::{Gpio, PIN_NUM, PORT_NUM};
use hat::peripherals::Peripheral;
use hat::std_runtime::peripheral::GpioRegistry;
use hat::std_runtime::timer::{timer_new_delay, TimerQueue};
use hat::common::result::HATError;

#[test]
fn arena_allocates_downwards_aligned() {
    let mut a = ArenaAlloc::new();
    let first = a.allocate(10, 4).unwrap();
    assert_eq!(first, (ARENA_SIZE - 10) & !3);
    assert_eq!(first % 4, 0);
    let second = a.allocate(3, 8).unwrap();
    assert_eq!(second, (first - 3) & !7);
    assert!(second + 3 <= first);
    // alignment above the supported maximum
    assert_eq!(a.allocate(1, 512), None);
    // more than what remains
    assert_eq!(a.allocate(ARENA_SIZE, 1), None);
}

#[test]
fn arena_reserve_step() {
    assert_eq!(ArenaAlloc::reserve(100, 10, 16), Some(80));
    assert_eq!(ArenaAlloc::reserve(5, 6, 1), None);
}

#[test]
fn mempool_alignment_check() {
    assert!(MempoolAlloc::is_aligned(0x1000, 256));
    assert!(!MempoolAlloc::is_aligned(0x1004, 8));
}

#[test]
fn padding_to_the_next_multiple() {
    let l = Layout::from_size_align(5, 1).unwrap();
    assert_eq!(padding_needed_for(&l, 4), 3);
    let l = Layout::from_size_align(8, 8).unwrap();
    assert_eq!(padding_needed_for(&l, 8), 0);
    let l = Layout::from_size_align(9, 1).unwrap();
    assert_eq!(padding_needed_for(&l, 16), 7);
}

#[test]
fn arc_counts_handles() {
    let mut inner = ArcInner::new(5u8);
    inner.acquire();
    assert!(!inner.release());
    assert!(inner.release());
    assert_eq!(*inner.data(), 5);
}

#[test]
fn delay_future_schedules_its_duration() {
    let mut d = delay::<&'static str>(Duration::from_millis(1500));
    assert!(matches!(d.poll("waker"), DelayPoll::Schedule(1500)));
    assert_eq!(d.complete(), Some("waker"));
    assert!(matches!(d.poll("again"), DelayPoll::Ready));
    assert_eq!(d.complete(), None);
}

#[test]
fn delay_future_truncates_to_32_bits() {
    let mut d = delay::<u8>(Duration::from_millis((1u64 << 32) + 7));
    assert!(matches!(d.poll(0), DelayPoll::Schedule(7)));
}

#[test]
fn delay_state_complete_without_waiter() {
    let mut s: DelayState<u8> = DelayState::Idle;
    assert_eq!(s.complete(), None);
    assert!(matches!(s, DelayState::Completed));
}

#[test]
fn gpio_table_and_address_check() {
    let table = Gpio::init();
    assert_eq!(table.len(), PORT_NUM);
    assert_eq!(table[0].len(), PIN_NUM);
    assert!(Gpio::check_address(&table, 0, 2).is_ok());
    assert!(matches!(Gpio::check_address(&table, 1, 0), Err(HATError::WrongGPIOPort)));
    assert!(matches!(Gpio::check_address(&table, 0, 3), Err(HATError::WrongGPIOPin)));
    assert_eq!(table[0][2].port_number(), 0);
    assert_eq!(table[0][2].pin_number(), 2);
}

#[test]
fn rtos_status_codes() {
    assert_eq!(rtos_status(0), Ok(()));
    assert_eq!(rtos_status(-11), Err(-11));
    assert_eq!(rtos_status(5), Err(5));
}

#[test]
fn peripheral_open_and_toggle() {
    let mut registry = GpioRegistry::new();
    let mut p: Peripheral<bool, Gpio> = Peripheral::new(Gpio::init().remove(0).remove(1));
    let id = registry.peripheral_open(1, 0, 1);
    p.set_opened(id);
    assert_eq!(p.get_id(), 0);
    let level = registry.peripheral_read(1, p.get_id()).unwrap();
    assert!(!level);
    registry.peripheral_write(1, p.get_id(), p.toggle(level));
    assert_eq!(registry.peripheral_read(1, p.get_id()), Some(true));
    registry.peripheral_write(1, p.get_id(), p.toggle(true));
    assert_eq!(registry.peripheral_read(1, p.get_id()), Some(false));
}

#[test]
fn registry_ignores_other_kinds_and_closed_pins() {
    let mut registry = GpioRegistry::new();
    assert_eq!(registry.peripheral_open(2, 0, 0), 0);
    assert_eq!(registry.peripheral_read(1, 0), None);
    let a = registry.peripheral_open(1, 0, 0);
    let b = registry.peripheral_open(1, 0, 1);
    assert_eq!((a, b), (0, 1));
    registry.peripheral_close(1, a);
    assert_eq!(registry.peripheral_read(1, a), None);
    registry.peripheral_write(1, a, true);
    assert_eq!(registry.peripheral_read(1, a), None);
    assert_eq!(registry.peripheral_read(2, b), None);
}

#[test]
fn timer_queue_orders_and_pops_due_entries() {
    let mut q: TimerQueue<&'static str> = TimerQueue::new();
    q.push(timer_new_delay("late", 10, 50));
    q.push(timer_new_delay("early", 10, 5));
    q.push(timer_new_delay("tie", 0, 15));
    assert!(q.pop_due(14).is_none());
    assert_eq!(q.pop_due(15).map(|e| e.into_state()), Some("early"));
    assert_eq!(q.pop_due(15).map(|e| e.into_state()), Some("tie"));
    assert!(q.pop_due(59).is_none());
    assert_eq!(q.pop_due(100).map(|e| e.into_state()), Some("late"));
    assert!(q.is_empty());
}
