use vstd::arithmetic::div_mod::{
    lemma_div_nonincreasing, lemma_mod_multiples_vanish, lemma_small_mod,
};
use vstd::prelude::*;

use crate::intr::{enable, line_state, with_line_enabled, InterruptController, Line, SetupError};
use crate::preempt::{PreemptSource, SwitchRequest};
use crate::rate::rate_period_micros;

verus! {

/// Nominal rate of the direct-counter clock: the system timer counts at a
/// fixed 16 MHz, so one tick is 1/16_000_000 s.
pub const TICKS_PER_SECOND: u64 = 16_000_000;

/// Effective width of the free-running counter: 52 bits.
pub const COUNTER_BIT_MASK: u64 = 0x000F_FFFF_FFFF_FFFF;

/// System-timer ticks in one microsecond: the alarm's period register is
/// programmed in these ticks.
pub const TICKS_PER_MICRO: u32 = 16;

/// Model of the periodic alarm comparator that generates the tick interrupt.
#[derive(Clone, Copy, Debug, PartialEq, Eq, Structural)]
pub struct Alarm {
    /// period register, in system-timer ticks
    pub period_ticks: u32,
    /// period (auto-reload) mode bit; the comparator re-fires every period
    pub periodic: bool,
    /// interrupt-enable bit of the alarm's own line
    pub interrupt_enabled: bool,
    /// latched interrupt flag, acknowledged by the handlers
    pub pending: bool,
}

impl Alarm {
    /// Program the period register from a period in microseconds and switch
    /// the comparator to periodic (auto-reload) mode, as the chip's alarm
    /// service does: the register counts system-timer ticks, 16 per
    /// microsecond.
    pub fn set_period(&mut self, period_us: u32)
        requires
            period_us <= 0x0FFF_FFFF,
        ensures
            *final(self) == (Alarm {
                period_ticks: (period_us * TICKS_PER_MICRO) as u32,
                periodic: true,
                ..*old(self)
            }),
    {
        self.period_ticks = period_us * TICKS_PER_MICRO;
        self.periodic = true;
    }

    /// Acknowledge the alarm: clear the latched interrupt flag.
    pub fn clear_interrupt(&mut self)
        ensures
            *final(self) == (Alarm { pending: false, ..*old(self) }),
    {
        self.pending = false;
    }

    /// Set or clear the interrupt-enable bit of the alarm's line.
    pub fn interrupt_enable(&mut self, enabled: bool)
        ensures
            *final(self) == (Alarm { interrupt_enabled: enabled, ..*old(self) }),
    {
        self.interrupt_enabled = enabled;
    }
}

/// Model of the free-running 52-bit system-timer counter unit with its
/// snapshot registers. The live count is wider than one bus word, so it
/// cannot be read atomically: software requests a snapshot and reads the
/// latched low/high words once the hardware marks them valid.
#[derive(Clone, Copy, Debug, PartialEq, Eq, Structural)]
pub struct Systimer {
    /// live count; only the low 52 bits exist in hardware
    pub count: u64,
    pub snapshot_lo: u32,
    pub snapshot_hi: u32,
    pub snapshot_valid: bool,
}

pub open spec fn systimer_wf(s: Systimer) -> bool {
    s.count <= COUNTER_BIT_MASK
}

impl Systimer {
    /// Ask the unit to latch the live count into the snapshot registers. In
    /// this model the latch completes at once; the real unit raises the valid
    /// bit a few bus cycles later, which is why readers poll [`Systimer::try_read`]
    /// with no timeout (the hardware guarantees eventual readiness).
    pub fn snapshot_request(&mut self)
        ensures
            *final(self) == (Systimer {
                snapshot_lo: (old(self).count & 0xFFFF_FFFF) as u32,
                snapshot_hi: (old(self).count >> 32) as u32,
                snapshot_valid: true,
                count: old(self).count,
            }),
    {
        self.snapshot_lo = (self.count & 0xFFFF_FFFF) as u32;
        self.snapshot_hi = (self.count >> 32) as u32;
        self.snapshot_valid = true;
    }

    /// Read the latched low/high words; `None` until the hardware has marked
    /// them valid.
    pub fn try_read(&self) -> (r: Option<(u32, u32)>)
        ensures
            r == if self.snapshot_valid {
                Some((self.snapshot_lo, self.snapshot_hi))
            } else {
                None::<(u32, u32)>
            },
    {
        if self.snapshot_valid {
            Some((self.snapshot_lo, self.snapshot_hi))
        } else {
            None
        }
    }

    /// The counter runs free: `dt` ticks pass, wrapping at the counter
    /// width. This is the hardware's own step — no software performs it — and
    /// exists so that simulations and the monotonicity law can speak of time
    /// passing.
    pub fn advance(&mut self, dt: u64)
        requires
            systimer_wf(*old(self)),
        ensures
            *final(self) == (Systimer {
                count: ((old(self).count + dt) % (COUNTER_BIT_MASK + 1)) as u64,
                ..*old(self)
            }),
            systimer_wf(*final(self)),
    {
        let sum: u128 = self.count as u128 + dt as u128;
        let wrapped: u128 = sum % (COUNTER_BIT_MASK as u128 + 1);
        self.count = wrapped as u64;
    }
}

/// The system register holding the CPU software-interrupt request bit of the
/// yield line: set by [`yield_task`] to raise the interrupt, cleared by the
/// handler as its acknowledgment.
#[derive(Clone, Copy, Debug, PartialEq, Eq, Structural)]
pub struct SystemControl {
    pub cpu_intr_from_cpu_3: bool,
}

/// The direct-counter backend: a wide free-running counter that already runs
/// at the nominal tick rate, and a periodic alarm comparator that drives
/// preemption. All register state is owned here and, in the live system,
/// reached only under the shared critical section.
#[derive(Clone, Copy, Debug, PartialEq)]
pub struct DirectDriver {
    /// configured rate of the periodic tick interrupt, per second
    pub tick_rate_hz: u32,
    /// wifi lines are compiled in
    pub wifi: bool,
    /// Bluetooth lines are compiled in
    pub ble: bool,
    /// the owned alarm; `None` until setup stores it
    pub alarm: Option<Alarm>,
    pub counter: Systimer,
    pub system: SystemControl,
    pub intr: InterruptController,
}

pub open spec fn driver_wf(d: DirectDriver) -> bool {
    &&& systimer_wf(d.counter)
    &&& 1 <= d.tick_rate_hz
}

/// The alarm period register value, in system-timer ticks, that a tick rate
/// of `hz` per second calls for: the period in whole microseconds, 16 ticks
/// each.
pub open spec fn period_ticks_for(hz: u32) -> u32
    recommends
        1 <= hz,
{
    ((1_000_000u64 / hz as u64) * 16) as u32
}

/// The alarm exactly as setup leaves it: periodic at the configured rate,
/// acknowledged, interrupt enabled.
pub open spec fn armed_alarm(hz: u32) -> Alarm {
    Alarm {
        period_ticks: period_ticks_for(hz),
        periodic: true,
        interrupt_enabled: true,
        pending: false,
    }
}

/// The periodic tick hardware is armed: the alarm is present, periodic, set
/// to exactly the configured period, with its interrupt enabled. Setup
/// establishes this, and every preemption-capable handler re-establishes it
/// before returning.
pub open spec fn tick_armed(d: DirectDriver) -> bool {
    match d.alarm {
        Some(a) => a.periodic && a.interrupt_enabled && a.period_ticks == period_ticks_for(
            d.tick_rate_hz,
        ),
        None => false,
    }
}

/// Every line this backend needs can be routed by the controller: its own
/// tick and yield lines always, the radio lines when their feature is in.
pub open spec fn setup_lines_available(d: DirectDriver) -> bool {
    &&& line_state(d.intr, Line::SystimerTarget0).available
    &&& d.wifi ==> line_state(d.intr, Line::WifiMac).available && line_state(
        d.intr,
        Line::WifiPwr,
    ).available
    &&& d.ble ==> line_state(d.intr, Line::LpTimer).available && line_state(
        d.intr,
        Line::BtMac,
    ).available
    &&& line_state(d.intr, Line::FromCpuIntr3).available
}

/// The controller after setup has enabled, in order, the tick line, the
/// radio lines whose feature is in, and the yield line, all at priority 1.
pub open spec fn intr_after_setup(c: InterruptController, wifi: bool, ble: bool) -> InterruptController {
    let c1 = with_line_enabled(c, Line::SystimerTarget0, 1);
    let c2 = if wifi {
        with_line_enabled(with_line_enabled(c1, Line::WifiMac, 1), Line::WifiPwr, 1)
    } else {
        c1
    };
    let c3 = if ble {
        with_line_enabled(with_line_enabled(c2, Line::LpTimer, 1), Line::BtMac, 1)
    } else {
        c2
    };
    with_line_enabled(c3, Line::FromCpuIntr3, 1)
}

/// One-time initialization: take ownership of the free alarm, arm it at the
/// configured rate in periodic mode, acknowledge and enable it, store it in
/// the driver's slot, and enable every interrupt line this backend needs. On
/// `Ok` the caller's startup shim unmasks CPU interrupts and busy-waits until
/// the scheduler's first switch; on `Err` it halts startup — a partially
/// armed preemption source must never run.
pub fn setup_timer_isr(d: &mut DirectDriver, alarm: Alarm) -> (r: Result<(), SetupError>)
    requires
        driver_wf(*old(d)),
        old(d).alarm is None,
    ensures
        driver_wf(*final(d)),
        r is Ok <==> setup_lines_available(*old(d)),
        final(d).alarm == Some(armed_alarm(old(d).tick_rate_hz)),
        final(d).tick_rate_hz == old(d).tick_rate_hz,
        final(d).wifi == old(d).wifi,
        final(d).ble == old(d).ble,
        final(d).counter == old(d).counter,
        final(d).system == old(d).system,
        r is Ok ==> tick_armed(*final(d)),
        r is Ok ==> final(d).intr == intr_after_setup(old(d).intr, old(d).wifi, old(d).ble),
        r matches Err(e) ==> !line_state(old(d).intr, e.line).available,
{
    let mut alarm0 = alarm;
    let period_us_wide = rate_period_micros(d.tick_rate_hz as u64);
    proof {
        lemma_div_nonincreasing(1_000_000, d.tick_rate_hz as int);
    }
    let period_us = period_us_wide as u32;
    alarm0.set_period(period_us);
    alarm0.clear_interrupt();
    alarm0.interrupt_enable(true);
    d.alarm = Some(alarm0);
    match enable(&mut d.intr, Line::SystimerTarget0, 1) {
        Ok(()) => {},
        Err(e) => {
            return Err(e);
        },
    }
    if d.wifi {
        match enable(&mut d.intr, Line::WifiMac, 1) {
            Ok(()) => {},
            Err(e) => {
                return Err(e);
            },
        }
        match enable(&mut d.intr, Line::WifiPwr, 1) {
            Ok(()) => {},
            Err(e) => {
                return Err(e);
            },
        }
    }
    if d.ble {
        match enable(&mut d.intr, Line::LpTimer, 1) {
            Ok(()) => {},
            Err(e) => {
                return Err(e);
            },
        }
        match enable(&mut d.intr, Line::BtMac, 1) {
            Ok(()) => {},
            Err(e) => {
                return Err(e);
            },
        }
    }
    match enable(&mut d.intr, Line::FromCpuIntr3, 1) {
        Ok(()) => {},
        Err(e) => {
            return Err(e);
        },
    }
    Ok(())
}

/// Transition of the periodic tick handler: acknowledge the alarm's latched
/// interrupt and owe one task switch to the tick line. The periodic
/// comparator re-arms itself, so the period register is untouched.
pub open spec fn spec_systimer_target0(d: DirectDriver) -> (DirectDriver, SwitchRequest) {
    let ack = match d.alarm {
        Some(a) => Some(Alarm { pending: false, ..a }),
        None => None,
    };
    (
        DirectDriver { alarm: ack, ..d },
        SwitchRequest { source: PreemptSource::Tick },
    )
}

/// The periodic tick handler: clear the alarm interrupt (inside the shared
/// critical section in the live system), then hand back the owed task switch
/// for the trap shim to perform with the trapped frame.
pub fn systimer_target0(d: &mut DirectDriver) -> (r: SwitchRequest)
    requires
        old(d).alarm is Some,
    ensures
        (*final(d), r) == spec_systimer_target0(*old(d)),
{
    match &mut d.alarm {
        Some(a) => a.clear_interrupt(),
        None => {
            assert(false);
        },
    }
    SwitchRequest { source: PreemptSource::Tick }
}

/// Transition of the software-yield handler: acknowledge the raised software
/// interrupt in the system register, defensively re-arm the alarm with the
/// configured period, acknowledge the alarm, and owe one task switch to the
/// yield line.
pub open spec fn spec_from_cpu_intr3(d: DirectDriver) -> (DirectDriver, SwitchRequest) {
    let rearmed = match d.alarm {
        Some(a) => Some(
            Alarm {
                period_ticks: period_ticks_for(d.tick_rate_hz),
                periodic: true,
                pending: false,
                ..a
            },
        ),
        None => None,
    };
    (
        DirectDriver { system: SystemControl { cpu_intr_from_cpu_3: false }, alarm: rearmed, ..d },
        SwitchRequest { source: PreemptSource::Yield },
    )
}

/// The software-yield handler: clear the request bit, re-apply the configured
/// period to the alarm and acknowledge it (a yield may race with, or stand in
/// for, the next periodic fire, so the tick hardware is left armed exactly as
/// the tick handler leaves it), then hand back the owed task switch.
pub fn from_cpu_intr3(d: &mut DirectDriver) -> (r: SwitchRequest)
    requires
        driver_wf(*old(d)),
        old(d).alarm is Some,
    ensures
        (*final(d), r) == spec_from_cpu_intr3(*old(d)),
{
    d.system.cpu_intr_from_cpu_3 = false;
    let period_us_wide = rate_period_micros(d.tick_rate_hz as u64);
    proof {
        lemma_div_nonincreasing(1_000_000, d.tick_rate_hz as int);
    }
    let period_us = period_us_wide as u32;
    match &mut d.alarm {
        Some(a) => {
            a.set_period(period_us);
            a.clear_interrupt();
        },
        None => {
            assert(false);
        },
    }
    SwitchRequest { source: PreemptSource::Yield }
}

/// Transition of a yield request: raise the software-interrupt bit and
/// nothing else; the switch itself happens in the handler the bit triggers.
pub open spec fn spec_yield_task(d: DirectDriver) -> DirectDriver {
    DirectDriver { system: SystemControl { cpu_intr_from_cpu_3: true }, ..d }
}

/// Request an out-of-band preemption: set the software-interrupt request bit.
/// Callable from any context; it only raises the interrupt and never performs
/// the switch synchronously.
pub fn yield_task(d: &mut DirectDriver)
    ensures
        *final(d) == spec_yield_task(*old(d)),
{
    d.system.cpu_intr_from_cpu_3 = true;
}

/// What a clock read returns: the live count of the free-running counter.
pub open spec fn spec_clock(d: DirectDriver) -> u64 {
    d.counter.count
}

/// Current monotonic tick count. Requests a hardware snapshot of the live
/// count, polls until the latched words are valid (the hardware guarantees
/// eventual readiness, so the poll has no timeout), and reassembles the
/// 52-bit count from the low and high words. In the live system the whole
/// sequence runs inside the shared critical section.
pub fn get_systimer_count(d: &mut DirectDriver) -> (r: u64)
    requires
        systimer_wf(old(d).counter),
    ensures
        r == spec_clock(*old(d)),
        *final(d) == (DirectDriver {
            counter: Systimer {
                snapshot_lo: (old(d).counter.count & 0xFFFF_FFFF) as u32,
                snapshot_hi: (old(d).counter.count >> 32) as u32,
                snapshot_valid: true,
                count: old(d).counter.count,
            },
            ..*old(d)
        }),
{
    d.counter.snapshot_request();
    let mut latched = d.counter.try_read();
    while latched.is_none()
        invariant
            d.counter.snapshot_valid,
            latched == Some((d.counter.snapshot_lo, d.counter.snapshot_hi)),
        decreases 0int,
    {
        latched = d.counter.try_read();
    }
    let (lo, hi) = latched.unwrap();
    let value_lo = lo as u64;
    let value_hi = (hi as u64) << 32;
    proof {
        let c = old(d).counter.count;
        assert(((c & 0xFFFF_FFFF) | ((c >> 32) << 32)) == c) by (bit_vector);
        assert(c >> 32 <= 0xFFFF_FFFF) by (bit_vector);
        assert(c & 0xFFFF_FFFF <= 0xFFFF_FFFF) by (bit_vector);
    }
    value_lo | value_hi
}

/// Consecutive clock reads are non-decreasing modulo the counter wraparound:
/// when the counter advances by `dt`, less than half the counter range,
/// between two reads, the modular difference of the two reads is exactly
/// `dt` — in particular below half the range, so a consumer using modular
/// arithmetic sees time move forward.
pub proof fn lemma_clock_monotonic(c1: u64, dt: u64)
    requires
        c1 <= COUNTER_BIT_MASK,
        dt < (COUNTER_BIT_MASK + 1) / 2,
    ensures
        ((((c1 + dt) % (COUNTER_BIT_MASK + 1)) + (COUNTER_BIT_MASK + 1) - c1) % (COUNTER_BIT_MASK
            + 1)) == dt,
{
    let m = (COUNTER_BIT_MASK + 1) as int;
    let s = c1 + dt;
    lemma_small_mod(dt as nat, m as nat);
    if s < m {
        lemma_small_mod(s as nat, m as nat);
        assert(s % m == s);
        lemma_mod_multiples_vanish(1, dt as int, m);
        assert((m * 1 + dt) % m == dt as int % m);
        assert((s % m) + m - c1 == m + dt);
    } else {
        lemma_mod_multiples_vanish(1, s - m, m);
        assert((m * 1 + (s - m)) % m == (s - m) % m);
        lemma_small_mod((s - m) as nat, m as nat);
        assert(s % m == s - m);
        assert((s % m) + m - c1 == dt);
    }
}


/// Once the generator is armed, every preemption-capable handler, and a yield
/// request, leaves the alarm armed with exactly the configured period: the
/// tick handler relies on the comparator's auto-reload and only acknowledges,
/// while the yield handler re-applies the period defensively.
pub proof fn lemma_handlers_preserve_tick_armed(d: DirectDriver)
    requires
        tick_armed(d),
    ensures
        tick_armed(spec_systimer_target0(d).0),
        tick_armed(spec_from_cpu_intr3(d).0),
        tick_armed(spec_yield_task(d)),
{
}

/// A yield request, followed by the software interrupt it raises, produces
/// exactly one switch request, attributed to the yield line, and consumes the
/// request: the software-interrupt bit is set by the request and clear again
/// when the handler returns, so no second invocation is owed, and the clock is
/// untouched.
pub proof fn lemma_yield_round_trip(d: DirectDriver)
    requires
        d.alarm is Some,
    ensures
        ({
            let raised = spec_yield_task(d);
            let (after, r) = spec_from_cpu_intr3(raised);
            raised.system.cpu_intr_from_cpu_3 && r == (SwitchRequest {
                source: PreemptSource::Yield,
            }) && !after.system.cpu_intr_from_cpu_3 && after.counter == d.counter
        }),
{
}



/// One externally observable event of the preemption subsystem.
pub enum PreemptEvent {
    /// the periodic alarm fired and its handler ran
    TickFire,
    /// running code requested a yield
    YieldRequest,
    /// the software interrupt fired and its handler ran
    YieldFire,
}

pub open spec fn apply_event(d: DirectDriver, e: PreemptEvent) -> DirectDriver {
    match e {
        PreemptEvent::TickFire => spec_systimer_target0(d).0,
        PreemptEvent::YieldRequest => spec_yield_task(d),
        PreemptEvent::YieldFire => spec_from_cpu_intr3(d).0,
    }
}

pub open spec fn apply_events(d: DirectDriver, es: Seq<PreemptEvent>) -> DirectDriver
    decreases es.len(),
{
    if es.len() == 0 {
        d
    } else {
        apply_events(apply_event(d, es[0]), es.subrange(1, es.len() as int))
    }
}

/// The armed invariant holds at every externally observable point: whatever
/// sequence of tick fires, yield requests and yield fires follows setup, in
/// whatever interleaving, the tick hardware stays armed with exactly the
/// configured period.
pub proof fn lemma_armed_under_any_interleaving(d: DirectDriver, es: Seq<PreemptEvent>)
    requires
        tick_armed(d),
    ensures
        tick_armed(apply_events(d, es)),
    decreases es.len(),
{
    if es.len() > 0 {
        lemma_handlers_preserve_tick_armed(d);
        lemma_armed_under_any_interleaving(apply_event(d, es[0]), es.subrange(1, es.len() as int));
    }
}

} // verus!
