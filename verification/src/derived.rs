use vstd::arithmetic::div_mod::{
    lemma_add_mod_noop, lemma_div_is_ordered, lemma_mod_bound, lemma_mod_multiples_vanish,
    lemma_small_mod, lemma_sub_mod_noop,
};
use vstd::prelude::*;

use crate::intr::{enable, line_state, with_line_enabled, InterruptController, Line, SetupError};
use crate::preempt::{PreemptSource, SwitchRequest};
use crate::rate::rate_period_micros;

verus! {

/// Nominal rate of the derived-counter clock: scheduler ticks per second.
pub const TICKS_PER_SECOND: u64 = 40_000_000;

/// Effective width of the derived counter: the software-extended count uses
/// the full 64 bits, so consumers see plain wrapping arithmetic.
pub const COUNTER_BIT_MASK: u64 = 0xFFFF_FFFF_FFFF_FFFF;

/// Rate of the underlying CPU cycle counter, per second. It differs from the
/// nominal tick rate, so every read is scaled by the fixed rational factor
/// `TICKS_PER_SECOND / CYCLES_PER_SECOND`.
pub const CYCLES_PER_SECOND: u64 = 240_000_000;

/// Ticks the software accumulator gains per cycle-counter overflow: one full
/// 32-bit counter epoch scaled to the nominal rate, in exact integer
/// arithmetic — the same constant at every overflow, so repeated overflows
/// accumulate no rounding drift.
pub const EPOCH_TICKS: u64 = 0x1_0000_0000 * 40_000_000 / 240_000_000;

/// CPU interrupt-mask bit of the internal cycle-compare timer that signals a
/// counter overflow.
pub const CPU_TIMER0_MASK: u32 = 1 << 6;

/// CPU interrupt-mask bit of software interrupt 1, the yield line.
pub const CPU_SOFTWARE1_MASK: u32 = 1 << 29;

/// One full wrap of 64-bit arithmetic: the counter, like its consumers, works
/// modulo 2^64.
pub open spec fn wrap64(x: int) -> u64 {
    (x % 0x1_0000_0000_0000_0000) as u64
}

/// Software extension of the narrow cycle counter: the accumulator of scaled
/// ticks from already-completed counter epochs. In the live system this is a
/// process-wide atomic, bumped lock-free with relaxed ordering; reads combine
/// it with the live counter by plain addition, so no total ordering is needed.
#[derive(Clone, Copy, Debug, PartialEq, Eq, Structural)]
pub struct TimeBase {
    pub accum: u64,
}

/// Model of the CPU's free-running cycle counter and its compare register.
/// The counter cannot be stopped; the compare register is parked at the
/// maximal value so that the overflow interrupt fires once per counter wrap.
#[derive(Clone, Copy, Debug, PartialEq, Eq, Structural)]
pub struct CycleCounter {
    pub count: u32,
    pub compare0: u32,
}

/// Model of the general-purpose down-counting timer that generates the tick
/// interrupt. Its hardware cannot reload a relative period by itself once the
/// value has run free, so every handler writes the timeout anew.
#[derive(Clone, Copy, Debug, PartialEq, Eq, Structural)]
pub struct TimgTimer {
    /// the programmed timeout, in microseconds
    pub load_us: u64,
    /// the timer's interrupt is listened to
    pub listening: bool,
    /// latched interrupt flag, acknowledged by the handlers
    pub pending: bool,
}

impl TimgTimer {
    /// Listen for the timer's level interrupt.
    pub fn listen(&mut self)
        ensures
            *final(self) == (TimgTimer { listening: true, ..*old(self) }),
    {
        self.listening = true;
    }

    /// Load the timeout: the timer is fully reconfigured to expire `us`
    /// microseconds from now.
    pub fn start(&mut self, us: u64)
        ensures
            *final(self) == (TimgTimer { load_us: us, ..*old(self) }),
    {
        self.load_us = us;
    }

    /// Acknowledge the timer: clear the latched interrupt flag.
    pub fn clear_interrupt(&mut self)
        ensures
            *final(self) == (TimgTimer { pending: false, ..*old(self) }),
    {
        self.pending = false;
    }
}

/// The CPU-local interrupt controller state: which CPU interrupt bits are
/// enabled, and which software-raised bits are pending. The yield line is
/// raised and cleared by writing its bit here.
#[derive(Clone, Copy, Debug, PartialEq, Eq, Structural)]
pub struct CpuIntr {
    pub enabled_mask: u32,
    pub pending_mask: u32,
}

/// The derived-counter backend: a narrow CPU cycle counter extended to 64
/// bits in software and scaled to the nominal tick rate, plus a
/// general-purpose timer that drives preemption.
#[derive(Clone, Copy, Debug, PartialEq)]
pub struct DerivedDriver {
    /// configured rate of the periodic tick interrupt, per second
    pub tick_rate_hz: u32,
    /// wifi lines are compiled in
    pub wifi: bool,
    /// Bluetooth lines are compiled in
    pub ble: bool,
    /// mask of the CPU interrupt levels the platform's trap dispatcher
    /// serves, supplied by the platform and ORed in at setup beside the
    /// timer and software bits
    pub level_masks: u32,
    /// the owned tick timer; `None` until setup stores it
    pub timer: Option<TimgTimer>,
    pub time: TimeBase,
    pub cycles: CycleCounter,
    pub cpu: CpuIntr,
    pub intr: InterruptController,
}

pub open spec fn driver_wf(d: DerivedDriver) -> bool {
    1 <= d.tick_rate_hz
}

/// A live cycle-counter value scaled to nominal ticks, exact and truncating:
/// `cycles * 40_000_000 / 240_000_000`.
pub open spec fn spec_scaled(cycles: u32) -> u64 {
    (cycles as int * TICKS_PER_SECOND as int / CYCLES_PER_SECOND as int) as u64
}

/// Scale a live cycle-counter value to nominal ticks by the fixed rational
/// factor nominal-rate over cycle-rate, in exact integer arithmetic.
pub fn read_timer_value(cycles: u32) -> (r: u64)
    ensures
        r == spec_scaled(cycles),
{
    (cycles as u64) * TICKS_PER_SECOND / CYCLES_PER_SECOND
}

/// What a clock read returns: the accumulator of completed epochs plus the
/// scaled live count, combined by wrapping addition.
pub open spec fn spec_clock(d: DerivedDriver) -> u64 {
    wrap64(d.time.accum + spec_scaled(d.cycles.count))
}

/// `wrapping_add` is addition modulo 2^64.
proof fn lemma_wrapping_add_is_wrap64(a: u64, b: u64)
    ensures
        vstd::wrapping::u64_specs::wrapping_add(a, b) == wrap64(a + b),
{
    let m = 0x1_0000_0000_0000_0000int;
    if a + b > u64::MAX {
        lemma_mod_multiples_vanish(1, a + b - m, m);
        lemma_small_mod((a + b - m) as nat, m as nat);
    } else {
        lemma_small_mod((a + b) as nat, m as nat);
    }
}

/// Current monotonic tick count: the accumulator plus the scaled live cycle
/// count. Reads need no critical section — the accumulator is read once, and
/// the combination is plain addition.
pub fn get_systimer_count(d: &DerivedDriver) -> (r: u64)
    ensures
        r == spec_clock(*d),
{
    let live = read_timer_value(d.cycles.count);
    proof {
        lemma_wrapping_add_is_wrap64(d.time.accum, spec_scaled(d.cycles.count));
    }
    d.time.accum.wrapping_add(live)
}

/// Transition of the cycle-counter overflow handler: the accumulator gains
/// exactly one epoch's worth of scaled ticks, and the compare register is
/// parked at the maximal value again so the next overflow fires.
pub open spec fn spec_timer0(d: DerivedDriver) -> DerivedDriver {
    DerivedDriver {
        time: TimeBase { accum: wrap64(d.time.accum + EPOCH_TICKS) },
        cycles: CycleCounter { compare0: 0xFFFF_FFFF, ..d.cycles },
        ..d
    }
}

/// The cycle-counter overflow handler: bump the epoch accumulator by the
/// fixed scaled-epoch constant (lock-free in the live system) and re-write
/// the maximal compare value. Overflow bookkeeping is all this handler does;
/// it takes no part in preemption.
pub fn timer0(d: &mut DerivedDriver)
    ensures
        *final(d) == spec_timer0(*old(d)),
{
    proof {
        lemma_wrapping_add_is_wrap64(d.time.accum, EPOCH_TICKS);
    }
    d.time.accum = d.time.accum.wrapping_add(EPOCH_TICKS);
    d.cycles.compare0 = 0xFFFF_FFFF;
}

/// Every line this backend needs can be routed by the controller.
pub open spec fn setup_lines_available(d: DerivedDriver) -> bool {
    &&& line_state(d.intr, Line::Tg1T0Level).available
    &&& d.wifi ==> line_state(d.intr, Line::WifiMac).available && line_state(
        d.intr,
        Line::WifiPwr,
    ).available
    &&& d.ble ==> line_state(d.intr, Line::BtBb).available && line_state(
        d.intr,
        Line::Rwble,
    ).available
}

/// The controller after setup has enabled, in order, the tick-timer line at
/// priority 2 and the radio lines whose feature is in at priority 1.
pub open spec fn intr_after_setup(c: InterruptController, wifi: bool, ble: bool) -> InterruptController {
    let c1 = with_line_enabled(c, Line::Tg1T0Level, 2);
    let c2 = if wifi {
        with_line_enabled(with_line_enabled(c1, Line::WifiMac, 1), Line::WifiPwr, 1)
    } else {
        c1
    };
    if ble {
        with_line_enabled(with_line_enabled(c2, Line::BtBb, 1), Line::Rwble, 1)
    } else {
        c2
    }
}

/// The timer period, in whole microseconds, that a tick rate of `hz` per
/// second calls for.
pub open spec fn period_us_for(hz: u32) -> u64
    recommends
        1 <= hz,
{
    (1_000_000int / hz as int) as u64
}

/// The periodic tick hardware is armed: the timer is present and listened to,
/// with exactly the configured timeout loaded. Setup establishes this, and
/// every preemption-capable handler re-establishes it before returning.
pub open spec fn tick_armed(d: DerivedDriver) -> bool {
    match d.timer {
        Some(t) => t.listening && t.load_us == period_us_for(d.tick_rate_hz),
        None => false,
    }
}

/// One-time initialization: enable the timer and radio interrupt lines,
/// listen to and start the owned timer at the configured rate, store it in
/// the driver's slot, park the cycle-compare register at its maximum, and
/// enable the CPU interrupt bits (timer overflow, software yield, and the
/// platform's dispatch levels). On `Ok` the caller's startup shim unmasks CPU
/// interrupts and busy-waits until the scheduler's first switch; on `Err` it
/// halts startup — a partially armed preemption source must never run.
pub fn setup_timer_isr(d: &mut DerivedDriver, timer: TimgTimer) -> (r: Result<(), SetupError>)
    requires
        driver_wf(*old(d)),
        old(d).timer is None,
    ensures
        driver_wf(*final(d)),
        r is Ok <==> setup_lines_available(*old(d)),
        final(d).tick_rate_hz == old(d).tick_rate_hz,
        final(d).wifi == old(d).wifi,
        final(d).ble == old(d).ble,
        final(d).level_masks == old(d).level_masks,
        final(d).time == old(d).time,
        r is Ok ==> final(d).timer == Some(
            TimgTimer {
                load_us: period_us_for(old(d).tick_rate_hz),
                listening: true,
                pending: timer.pending,
            },
        ),
        r is Ok ==> tick_armed(*final(d)),
        r is Ok ==> final(d).cycles == (CycleCounter { compare0: 0xFFFF_FFFF, ..old(d).cycles }),
        r is Ok ==> final(d).cpu == (CpuIntr {
            enabled_mask: old(d).cpu.enabled_mask | CPU_TIMER0_MASK | CPU_SOFTWARE1_MASK | old(
                d,
            ).level_masks,
            ..old(d).cpu
        }),
        r is Ok ==> final(d).intr == intr_after_setup(old(d).intr, old(d).wifi, old(d).ble),
        r matches Err(e) ==> !line_state(old(d).intr, e.line).available,
        r is Err ==> final(d).timer is None && final(d).cycles == old(d).cycles && final(d).cpu
            == old(d).cpu,
{
    match enable(&mut d.intr, Line::Tg1T0Level, 2) {
        Ok(()) => {},
        Err(e) => {
            return Err(e);
        },
    }
    if d.wifi {
        match enable(&mut d.intr, Line::WifiMac, 1) {
            Ok(()) => {},
            Err(e) => {
                return Err(e);
            },
        }
        match enable(&mut d.intr, Line::WifiPwr, 1) {
            Ok(()) => {},
            Err(e) => {
                return Err(e);
            },
        }
    }
    if d.ble {
        match enable(&mut d.intr, Line::BtBb, 1) {
            Ok(()) => {},
            Err(e) => {
                return Err(e);
            },
        }
        match enable(&mut d.intr, Line::Rwble, 1) {
            Ok(()) => {},
            Err(e) => {
                return Err(e);
            },
        }
    }
    let mut timer1 = timer;
    timer1.listen();
    let period_us = rate_period_micros(d.tick_rate_hz as u64);
    timer1.start(period_us);
    d.timer = Some(timer1);
    d.cycles.compare0 = 0xFFFF_FFFF;
    d.cpu.enabled_mask = d.cpu.enabled_mask | CPU_TIMER0_MASK | CPU_SOFTWARE1_MASK
        | d.level_masks;
    Ok(())
}

/// Transition of the periodic tick handler: acknowledge the timer and load
/// the configured timeout anew (this hardware cannot reload a relative period
/// by itself), owing one task switch to the tick line.
pub open spec fn spec_tg1_t0_level(d: DerivedDriver) -> (DerivedDriver, SwitchRequest) {
    let rearmed = match d.timer {
        Some(t) => Some(
            TimgTimer { load_us: period_us_for(d.tick_rate_hz), pending: false, ..t },
        ),
        None => None,
    };
    (
        DerivedDriver { timer: rearmed, ..d },
        SwitchRequest { source: PreemptSource::Tick },
    )
}

/// The periodic tick handler: hand back the owed task switch, then — inside
/// the shared critical section in the live system — acknowledge the timer and
/// re-apply the configured timeout before the interrupt returns.
pub fn tg1_t0_level(d: &mut DerivedDriver) -> (r: SwitchRequest)
    requires
        driver_wf(*old(d)),
        old(d).timer is Some,
    ensures
        (*final(d), r) == spec_tg1_t0_level(*old(d)),
{
    let period_us = rate_period_micros(d.tick_rate_hz as u64);
    match &mut d.timer {
        Some(t) => {
            t.clear_interrupt();
            t.start(period_us);
        },
        None => {
            assert(false);
        },
    }
    SwitchRequest { source: PreemptSource::Tick }
}

/// Transition of the software-yield handler: clear the pending software
/// interrupt bit, re-arm the tick timer exactly as the tick handler does, and
/// owe one task switch to the yield line.
pub open spec fn spec_software1(d: DerivedDriver) -> (DerivedDriver, SwitchRequest) {
    let rearmed = match d.timer {
        Some(t) => Some(
            TimgTimer { load_us: period_us_for(d.tick_rate_hz), pending: false, ..t },
        ),
        None => None,
    };
    (
        DerivedDriver {
            cpu: CpuIntr { pending_mask: d.cpu.pending_mask & !CPU_SOFTWARE1_MASK, ..d.cpu },
            timer: rearmed,
            ..d
        },
        SwitchRequest { source: PreemptSource::Yield },
    )
}

/// The software-yield handler: clear the raised interrupt bit in the CPU's
/// interrupt-clear control, hand back the owed task switch, and re-arm the
/// tick timer (a yield may race with, or stand in for, the next periodic
/// fire, so the tick hardware is left armed on every preemption path).
pub fn software1(d: &mut DerivedDriver) -> (r: SwitchRequest)
    requires
        driver_wf(*old(d)),
        old(d).timer is Some,
    ensures
        (*final(d), r) == spec_software1(*old(d)),
{
    d.cpu.pending_mask = d.cpu.pending_mask & !CPU_SOFTWARE1_MASK;
    let period_us = rate_period_micros(d.tick_rate_hz as u64);
    match &mut d.timer {
        Some(t) => {
            t.clear_interrupt();
            t.start(period_us);
        },
        None => {
            assert(false);
        },
    }
    SwitchRequest { source: PreemptSource::Yield }
}

/// Transition of a yield request: raise the software-interrupt bit in the
/// CPU's interrupt-set control and nothing else.
pub open spec fn spec_yield_task(d: DerivedDriver) -> DerivedDriver {
    DerivedDriver {
        cpu: CpuIntr { pending_mask: d.cpu.pending_mask | CPU_SOFTWARE1_MASK, ..d.cpu },
        ..d
    }
}

/// Request an out-of-band preemption: set the software-interrupt bit.
/// Callable from any context; it only raises the interrupt and never performs
/// the switch synchronously.
pub fn yield_task(d: &mut DerivedDriver)
    ensures
        *final(d) == spec_yield_task(*old(d)),
{
    d.cpu.pending_mask = d.cpu.pending_mask | CPU_SOFTWARE1_MASK;
}

/// The accumulator after `k` cycle-counter overflows.
pub open spec fn accum_after_overflows(accum: u64, k: nat) -> u64
    decreases k,
{
    if k == 0 {
        accum
    } else {
        wrap64(accum_after_overflows(accum, (k - 1) as nat) + EPOCH_TICKS)
    }
}

/// No rounding drift across repeated overflows: `k` overflows advance the
/// accumulator by exactly `k` times the fixed scaled-epoch constant, modulo
/// the 64-bit counter width — each overflow contributes the same exact
/// integer amount.
pub proof fn lemma_no_rounding_drift(accum: u64, k: nat)
    ensures
        accum_after_overflows(accum, k) == wrap64(accum + k * EPOCH_TICKS),
    decreases k,
{
    let m = 0x1_0000_0000_0000_0000int;
    if k == 0 {
        lemma_small_mod(accum as nat, m as nat);
    } else {
        lemma_no_rounding_drift(accum, (k - 1) as nat);
        let prev = accum + (k - 1) * EPOCH_TICKS;
        lemma_add_mod_noop(prev, EPOCH_TICKS as int, m);
        lemma_small_mod(EPOCH_TICKS as nat, m as nat);
        assert(prev + EPOCH_TICKS == accum + k * EPOCH_TICKS) by (nonlinear_arith)
            requires
                prev == accum + (k - 1) * EPOCH_TICKS,
                k >= 1,
        ;
    }
}

/// The scaled live count never exceeds one epoch constant: the clock cannot
/// step backwards across an overflow, where the live contribution resets but
/// the accumulator gains a full epoch.
pub proof fn lemma_scaled_at_most_epoch(cycles: u32)
    ensures
        spec_scaled(cycles) <= EPOCH_TICKS,
{
    lemma_div_is_ordered(
        cycles as int * TICKS_PER_SECOND as int,
        0xFFFF_FFFF as int * TICKS_PER_SECOND as int,
        CYCLES_PER_SECOND as int,
    );
}

/// Consecutive clock reads are non-decreasing while the counter runs within
/// one epoch: a later cycle count scales to at least as many ticks.
pub proof fn lemma_clock_monotonic(c1: u32, c2: u32)
    requires
        c1 <= c2,
    ensures
        spec_scaled(c1) <= spec_scaled(c2),
{
    lemma_div_is_ordered(
        c1 as int * TICKS_PER_SECOND as int,
        c2 as int * TICKS_PER_SECOND as int,
        CYCLES_PER_SECOND as int,
    );
}

/// Across one overflow the clock is still non-decreasing: the epoch gained by
/// the accumulator covers whatever the live counter contributed before it
/// wrapped. Stated without the 64-bit wraparound of the accumulator itself.
pub proof fn lemma_overflow_monotonic(d: DerivedDriver)
    requires
        d.time.accum + EPOCH_TICKS + spec_scaled(d.cycles.count) <= u64::MAX,
    ensures
        spec_clock(
            DerivedDriver { cycles: CycleCounter { count: 0, ..d.cycles }, ..spec_timer0(d) },
        ) >= spec_clock(d),
{
    let m = 0x1_0000_0000_0000_0000int;
    lemma_scaled_at_most_epoch(d.cycles.count);
    lemma_small_mod((d.time.accum + spec_scaled(d.cycles.count)) as nat, m as nat);
    lemma_small_mod((d.time.accum + EPOCH_TICKS) as nat, m as nat);
    lemma_small_mod((d.time.accum + EPOCH_TICKS + spec_scaled(0u32)) as nat, m as nat);
}


/// Once the generator is armed, every preemption-capable handler, and a yield
/// request, and the overflow bookkeeping handler, leaves the tick timer armed
/// with exactly the configured timeout: both preemption handlers re-apply it
/// before returning, and the other two do not touch the timer.
pub proof fn lemma_handlers_preserve_tick_armed(d: DerivedDriver)
    requires
        tick_armed(d),
    ensures
        tick_armed(spec_tg1_t0_level(d).0),
        tick_armed(spec_software1(d).0),
        tick_armed(spec_yield_task(d)),
        tick_armed(spec_timer0(d)),
{
}

/// A yield request, followed by the software interrupt it raises, produces
/// exactly one switch request, attributed to the yield line, and consumes the
/// request: the software bit is pending after the request and clear again when
/// the handler returns, so no second invocation is owed, and the clock is
/// untouched.
pub proof fn lemma_yield_round_trip(d: DerivedDriver)
    requires
        d.timer is Some,
    ensures
        ({
            let raised = spec_yield_task(d);
            let (after, r) = spec_software1(raised);
            (raised.cpu.pending_mask & CPU_SOFTWARE1_MASK) != 0 && r == (SwitchRequest {
                source: PreemptSource::Yield,
            }) && (after.cpu.pending_mask & CPU_SOFTWARE1_MASK) == 0 && after.time == d.time
                && after.cycles == d.cycles
        }),
{
    let p = d.cpu.pending_mask;
    assert((p | CPU_SOFTWARE1_MASK) & CPU_SOFTWARE1_MASK != 0) by (bit_vector);
    assert(((p | CPU_SOFTWARE1_MASK) & !CPU_SOFTWARE1_MASK) & CPU_SOFTWARE1_MASK == 0)
        by (bit_vector);
}


/// Between two reads within one counter epoch the clock advances, modulo the
/// full 64-bit width, by exactly the scaled cycle advance: consecutive reads
/// are non-decreasing modulo the counter wraparound, and the modular
/// difference is exact.
pub proof fn lemma_clock_step_exact(d: DerivedDriver, c2: u32)
    requires
        d.cycles.count <= c2,
    ensures
        ({
            let later = DerivedDriver { cycles: CycleCounter { count: c2, ..d.cycles }, ..d };
            (spec_clock(later) + 0x1_0000_0000_0000_0000 - spec_clock(d))
                % 0x1_0000_0000_0000_0000 == spec_scaled(c2) - spec_scaled(d.cycles.count)
        }),
{
    let m = 0x1_0000_0000_0000_0000int;
    let s1 = spec_scaled(d.cycles.count) as int;
    let s2 = spec_scaled(c2) as int;
    lemma_clock_monotonic(d.cycles.count, c2);
    lemma_scaled_at_most_epoch(c2);
    let x1 = d.time.accum + s1;
    let x2 = d.time.accum + s2;
    let a = x1 % m;
    let b = x2 % m;
    lemma_mod_bound(x1, m);
    lemma_mod_bound(x2, m);
    lemma_sub_mod_noop(x2, x1, m);
    assert((b - a) % m == (s2 - s1) % m);
    lemma_mod_multiples_vanish(1, b - a, m);
    assert((m + (b - a)) % m == (b - a) % m);
    lemma_small_mod((s2 - s1) as nat, m as nat);
    assert(b + m - a == m + (b - a));
}


/// One externally observable event of the preemption subsystem.
pub enum PreemptEvent {
    /// the tick timer fired and its handler ran
    TickFire,
    /// running code requested a yield
    YieldRequest,
    /// the software interrupt fired and its handler ran
    YieldFire,
    /// the cycle counter overflowed and its bookkeeping handler ran
    Overflow,
}

pub open spec fn apply_event(d: DerivedDriver, e: PreemptEvent) -> DerivedDriver {
    match e {
        PreemptEvent::TickFire => spec_tg1_t0_level(d).0,
        PreemptEvent::YieldRequest => spec_yield_task(d),
        PreemptEvent::YieldFire => spec_software1(d).0,
        PreemptEvent::Overflow => spec_timer0(d),
    }
}

pub open spec fn apply_events(d: DerivedDriver, es: Seq<PreemptEvent>) -> DerivedDriver
    decreases es.len(),
{
    if es.len() == 0 {
        d
    } else {
        apply_events(apply_event(d, es[0]), es.subrange(1, es.len() as int))
    }
}

/// The armed invariant holds at every externally observable point: whatever
/// sequence of tick fires, yield requests, yield fires and counter overflows
/// follows setup, in whatever interleaving, the tick timer stays armed with
/// exactly the configured timeout.
pub proof fn lemma_armed_under_any_interleaving(d: DerivedDriver, es: Seq<PreemptEvent>)
    requires
        tick_armed(d),
    ensures
        tick_armed(apply_events(d, es)),
    decreases es.len(),
{
    if es.len() > 0 {
        lemma_handlers_preserve_tick_armed(d);
        lemma_armed_under_any_interleaving(apply_event(d, es[0]), es.subrange(1, es.len() as int));
    }
}

} // verus!
