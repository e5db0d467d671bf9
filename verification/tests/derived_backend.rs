use tick_driver::derived::{
    get_systimer_count, read_timer_value, setup_timer_isr, software1, tg1_t0_level, timer0,
    yield_task, CpuIntr, CycleCounter, DerivedDriver, TimeBase, TimgTimer, CPU_SOFTWARE1_MASK,
    CPU_TIMER0_MASK, COUNTER_BIT_MASK, CYCLES_PER_SECOND, EPOCH_TICKS, TICKS_PER_SECOND,
};
use tick_driver::intr::{InterruptController, Line, LineState, SetupError};
use tick_driver::preempt::PreemptSource;

fn all_available() -> InterruptController {
    let l = LineState { available: true, priority: 0 };
    InterruptController {
        systimer_target0: l,
        from_cpu_intr3: l,
        tg1_t0_level: l,
        wifi_mac: l,
        wifi_pwr: l,
        lp_timer: l,
        bt_mac: l,
        rwble: l,
        bt_bb: l,
    }
}

fn fresh_driver(hz: u32) -> DerivedDriver {
    DerivedDriver {
        tick_rate_hz: hz,
        wifi: true,
        ble: true,
        level_masks: 0x0080_0400,
        timer: None,
        time: TimeBase { accum: 0 },
        cycles: CycleCounter { count: 0, compare0: 0 },
        cpu: CpuIntr { enabled_mask: 0, pending_mask: 0 },
        intr: all_available(),
    }
}

fn fresh_timer() -> TimgTimer {
    TimgTimer { load_us: 0, listening: false, pending: false }
}

#[test]
fn scaling_is_exact_integer_arithmetic() {
    // 240 MHz cycles to 40 MHz ticks: one tick per six cycles, truncating.
    assert_eq!(read_timer_value(0), 0);
    assert_eq!(read_timer_value(5), 0);
    assert_eq!(read_timer_value(6), 1);
    assert_eq!(read_timer_value(240), 40);
    assert_eq!(read_timer_value(0xFFFF_FFFF), 715_827_882);
}

#[test]
fn one_overflow_adds_exactly_one_epoch() {
    // Cycle rate 240 MHz, nominal rate 40 MHz, counter width 32 bits: one
    // overflow must advance the clock by exactly 2^32 * 40_000_000 /
    // 240_000_000 plus the live contribution.
    let expected = 0x1_0000_0000u64 * 40_000_000 / 240_000_000;
    assert_eq!(EPOCH_TICKS, expected);
    assert_eq!(EPOCH_TICKS, 715_827_882);

    let mut d = fresh_driver(1000);
    d.cycles.count = 36;
    let before = get_systimer_count(&d);
    timer0(&mut d);
    d.cycles.count = 0;
    let after = get_systimer_count(&d);
    assert_eq!(after - before, expected - 6);
    assert_eq!(d.cycles.compare0, 0xFFFF_FFFF);

    d.cycles.count = 12;
    let later = get_systimer_count(&d);
    assert_eq!(later - before, expected - 6 + 2);
}

#[test]
fn repeated_overflows_accumulate_without_drift() {
    let mut d = fresh_driver(1000);
    for _ in 0..7 {
        timer0(&mut d);
    }
    assert_eq!(d.time.accum, 7 * EPOCH_TICKS);
    d.cycles.count = 600;
    assert_eq!(get_systimer_count(&d), 7 * EPOCH_TICKS + 100);
}

#[test]
fn accumulator_wraps_at_the_full_counter_width() {
    let mut d = fresh_driver(1000);
    d.time.accum = u64::MAX;
    timer0(&mut d);
    assert_eq!(d.time.accum, EPOCH_TICKS - 1);
    d.time.accum = u64::MAX;
    d.cycles.count = 6;
    assert_eq!(get_systimer_count(&d), 0);
}

#[test]
fn setup_arms_timer_and_cpu_bits() {
    let mut d = fresh_driver(1000);
    let r = setup_timer_isr(&mut d, fresh_timer());
    assert!(r.is_ok());
    let t = d.timer.expect("timer stored");
    assert_eq!(t.load_us, 1000);
    assert!(t.listening);
    assert_eq!(d.cycles.compare0, 0xFFFF_FFFF);
    assert_eq!(d.cpu.enabled_mask, CPU_TIMER0_MASK | CPU_SOFTWARE1_MASK | 0x0080_0400);
    assert_eq!(d.intr.tg1_t0_level.priority, 2);
    assert_eq!(d.intr.wifi_mac.priority, 1);
    assert_eq!(d.intr.bt_bb.priority, 1);
    assert_eq!(d.intr.rwble.priority, 1);
}

#[test]
fn derived_setup_period_is_computed_not_copied() {
    // 400 Hz is a 2500 us timeout: a conversion that handed the rate back
    // unchanged would load 400.
    let mut d = fresh_driver(400);
    setup_timer_isr(&mut d, fresh_timer()).expect("setup");
    assert_eq!(d.timer.unwrap().load_us, 2500);
}

#[test]
fn derived_setup_aborts_on_unavailable_line() {
    let mut d = fresh_driver(1000);
    d.intr.tg1_t0_level = LineState { available: false, priority: 0 };
    let r = setup_timer_isr(&mut d, fresh_timer());
    assert_eq!(r, Err(SetupError { line: Line::Tg1T0Level }));
}

#[test]
fn derived_ten_tick_firings_rearm_and_switch_each_time() {
    let mut d = fresh_driver(1000);
    setup_timer_isr(&mut d, fresh_timer()).expect("setup");
    let mut switches = 0;
    for _ in 0..10 {
        if let Some(t) = d.timer.as_mut() {
            t.pending = true;
        }
        let req = tg1_t0_level(&mut d);
        assert_eq!(req.source, PreemptSource::Tick);
        switches += 1;
        let t = d.timer.unwrap();
        assert_eq!(t.load_us, 1000);
        assert!(!t.pending);
    }
    assert_eq!(switches, 10);
}

#[test]
fn derived_yield_raises_then_handler_consumes_once() {
    let mut d = fresh_driver(1000);
    setup_timer_isr(&mut d, fresh_timer()).expect("setup");
    yield_task(&mut d);
    assert_eq!(d.cpu.pending_mask & CPU_SOFTWARE1_MASK, CPU_SOFTWARE1_MASK);
    let req = software1(&mut d);
    assert_eq!(req.source, PreemptSource::Yield);
    assert_eq!(d.cpu.pending_mask & CPU_SOFTWARE1_MASK, 0);
    // the yield path re-arms the tick timer exactly as the tick handler does
    let t = d.timer.unwrap();
    assert_eq!(t.load_us, 1000);
    assert!(!t.pending);
}

#[test]
fn rates_match_the_chip() {
    assert_eq!(TICKS_PER_SECOND, 40_000_000);
    assert_eq!(CYCLES_PER_SECOND, 240_000_000);
    assert_eq!(COUNTER_BIT_MASK, u64::MAX);
}
