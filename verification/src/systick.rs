use vstd::prelude::*;

verus! {

/// Multiplier of the system clock in the SysTick reload formula.
pub const TIME_CONTANT: u128 = 10_000_000;

/// Divisor of the SysTick reload formula: with the multiplier, one tick per millisecond.
pub const TIME_DIVISOR: u128 = 10_000_000_000;

/// The clock cycles of one millisecond at `sys_clock` Hz, cut to the counter's 24 bits.
pub open spec fn spec_ticks(sys_clock: u128) -> u32 {
    (((TIME_CONTANT as int * sys_clock as int) / TIME_DIVISOR as int) as u32) & 0x00FF_FFFFu32
}

/// The SysTick reload value for a system clock of `sys_clock` Hz: the ticks of one
/// millisecond, minus one.
pub open spec fn spec_reload(sys_clock: u128) -> u32 {
    (spec_ticks(sys_clock) - 1) as u32
}

/// Whether a reload value exists for a system clock of `sys_clock` Hz: the formula does
/// not overflow and gives at least one tick per millisecond.
pub fn reload_is_valid(sys_clock: u128) -> (b: bool)
    ensures
        b == (TIME_CONTANT * sys_clock <= u128::MAX && spec_ticks(sys_clock) >= 1),
{
    match TIME_CONTANT.checked_mul(sys_clock) {
        None => false,
        Some(cycles) => ((cycles / TIME_DIVISOR) as u32 & 0x00FF_FFFF) >= 1,
    }
}

/// The value `init_timer` loads into the SysTick reload register.
pub fn timer_reload(sys_clock: u128) -> (reload: u32)
    requires
        TIME_CONTANT * sys_clock <= u128::MAX,
        spec_ticks(sys_clock) >= 1,
    ensures
        reload == spec_reload(sys_clock),
{
    let ticks = ((TIME_CONTANT * sys_clock) / TIME_DIVISOR) as u32 & 0x00FF_FFFF;
    ticks - 1
}

/// The millisecond clock that the SysTick interrupt advances, and the instant at which
/// the time manager asked to be called back.
pub struct SysTick {
    now: u128,
    next_timeout: u128,
}

impl SysTick {
    pub closed spec fn now(&self) -> u128 {
        self.now
    }

    pub closed spec fn next_timeout(&self) -> u128 {
        self.next_timeout
    }

    /// A clock at zero, with no callback requested.
    pub fn new() -> (t: Self)
        ensures
            t.now() == 0,
            t.next_timeout() == u128::MAX,
    {
        SysTick { now: 0, next_timeout: u128::MAX }
    }

    pub fn current_time_ms(&self) -> (now: u128)
        ensures
            now == self.now(),
    {
        self.now
    }

    /// Whether the clock can advance (it stops at the largest instant).
    pub fn can_tick(&self) -> (b: bool)
        ensures
            b == (self.now() < u128::MAX),
    {
        self.now < u128::MAX
    }

    /// Requests the callback at the instant `timeout`.
    pub fn start_timer(&mut self, timeout: u128)
        ensures
            final(self).next_timeout() == timeout,
            final(self).now() == old(self).now(),
    {
        self.next_timeout = timeout;
    }

    /// One SysTick interrupt: the clock advances one millisecond; the new instant is
    /// returned when it is the one the callback was requested at.
    pub fn tick(&mut self) -> (fire: Option<u128>)
        requires
            old(self).now() < u128::MAX,
        ensures
            final(self).now() == old(self).now() + 1,
            final(self).next_timeout() == old(self).next_timeout(),
            fire == (if old(self).next_timeout() == old(self).now() + 1 {
                Some((old(self).now() + 1) as u128)
            } else {
                None::<u128>
            }),
    {
        self.now = self.now + 1;
        if self.next_timeout == self.now {
            Some(self.now)
        } else {
            None
        }
    }
}

} // verus!
