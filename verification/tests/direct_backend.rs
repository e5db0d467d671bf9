use tick_driver::direct::{
    get_systimer_count, setup_timer_isr, systimer_target0, yield_task, Alarm, DirectDriver,
    SystemControl, Systimer, COUNTER_BIT_MASK, TICKS_PER_SECOND,
};
use tick_driver::direct::from_cpu_intr3;
use tick_driver::intr::{InterruptController, Line, LineState, SetupError};
use tick_driver::preempt::PreemptSource;

fn all_available() -> InterruptController {
    let l = LineState { available: true, priority: 0 };
    InterruptController {
        systimer_target0: l,
        from_cpu_intr3: l,
        tg1_t0_level: l,
        wifi_mac: l,
        wifi_pwr: l,
        lp_timer: l,
        bt_mac: l,
        rwble: l,
        bt_bb: l,
    }
}

fn fresh_driver(hz: u32) -> DirectDriver {
    DirectDriver {
        tick_rate_hz: hz,
        wifi: true,
        ble: true,
        alarm: None,
        counter: Systimer { count: 0, snapshot_lo: 0, snapshot_hi: 0, snapshot_valid: false },
        system: SystemControl { cpu_intr_from_cpu_3: false },
        intr: all_available(),
    }
}

fn fresh_alarm() -> Alarm {
    Alarm { period_ticks: 0, periodic: false, interrupt_enabled: false, pending: false }
}

#[test]
fn setup_arms_one_millisecond_period() {
    // Nominal tick rate 1000 Hz: the period register must read the 1 ms
    // equivalent, 16_000 system-timer ticks at 16 MHz.
    let mut d = fresh_driver(1000);
    let r = setup_timer_isr(&mut d, fresh_alarm());
    assert!(r.is_ok());
    let a = d.alarm.expect("alarm stored");
    assert_eq!(a.period_ticks, 16_000);
    assert!(a.periodic);
    assert!(a.interrupt_enabled);
    assert!(!a.pending);
    assert_eq!(d.intr.systimer_target0.priority, 1);
    assert_eq!(d.intr.wifi_mac.priority, 1);
    assert_eq!(d.intr.wifi_pwr.priority, 1);
    assert_eq!(d.intr.lp_timer.priority, 1);
    assert_eq!(d.intr.bt_mac.priority, 1);
    assert_eq!(d.intr.from_cpu_intr3.priority, 1);
}

#[test]
fn setup_period_is_computed_not_copied() {
    // 250 Hz is 4000 us, hence 64_000 alarm ticks: a conversion that handed
    // the rate back unchanged would program 4000.
    let mut d = fresh_driver(250);
    let r = setup_timer_isr(&mut d, fresh_alarm());
    assert!(r.is_ok());
    assert_eq!(d.alarm.unwrap().period_ticks, 64_000);
}

#[test]
fn setup_without_radio_features_skips_radio_lines() {
    let mut d = fresh_driver(1000);
    d.wifi = false;
    d.ble = false;
    let r = setup_timer_isr(&mut d, fresh_alarm());
    assert!(r.is_ok());
    assert_eq!(d.intr.wifi_mac.priority, 0);
    assert_eq!(d.intr.lp_timer.priority, 0);
    assert_eq!(d.intr.systimer_target0.priority, 1);
    assert_eq!(d.intr.from_cpu_intr3.priority, 1);
}

#[test]
fn setup_aborts_on_unavailable_line() {
    let mut d = fresh_driver(1000);
    d.intr.wifi_pwr = LineState { available: false, priority: 0 };
    let r = setup_timer_isr(&mut d, fresh_alarm());
    assert_eq!(r, Err(SetupError { line: Line::WifiPwr }));
}

#[test]
fn ten_tick_firings_rearm_and_switch_each_time() {
    // Simulate 10 tick-handler firings: the period register reads the 1 ms
    // value after each, and the task-switch entry point is owed exactly 10
    // invocations.
    let mut d = fresh_driver(1000);
    setup_timer_isr(&mut d, fresh_alarm()).expect("setup");
    let mut switches = 0;
    for _ in 0..10 {
        // hardware latches the alarm interrupt before the handler runs
        if let Some(a) = d.alarm.as_mut() {
            a.pending = true;
        }
        let req = systimer_target0(&mut d);
        assert_eq!(req.source, PreemptSource::Tick);
        switches += 1;
        let a = d.alarm.unwrap();
        assert_eq!(a.period_ticks, 16_000);
        assert!(!a.pending);
    }
    assert_eq!(switches, 10);
}

#[test]
fn yield_raises_then_handler_consumes_once() {
    let mut d = fresh_driver(1000);
    setup_timer_isr(&mut d, fresh_alarm()).expect("setup");
    assert!(!d.system.cpu_intr_from_cpu_3);
    yield_task(&mut d);
    assert!(d.system.cpu_intr_from_cpu_3);
    let req = from_cpu_intr3(&mut d);
    assert_eq!(req.source, PreemptSource::Yield);
    assert!(!d.system.cpu_intr_from_cpu_3);
    // the defensive re-arm left the tick hardware armed with the period
    let a = d.alarm.unwrap();
    assert_eq!(a.period_ticks, 16_000);
    assert!(!a.pending);
}

#[test]
fn clock_read_reassembles_the_wide_count() {
    let mut d = fresh_driver(1000);
    d.counter.count = 0x000A_BCDE_F012_3456;
    let v = get_systimer_count(&mut d);
    assert_eq!(v, 0x000A_BCDE_F012_3456);
    assert!(d.counter.snapshot_valid);
    assert_eq!(d.counter.snapshot_lo, 0xF012_3456);
    assert_eq!(d.counter.snapshot_hi, 0x000A_BCDE);
}

#[test]
fn clock_is_monotonic_modulo_the_mask() {
    let mut d = fresh_driver(1000);
    d.counter.count = COUNTER_BIT_MASK - 10;
    let a = get_systimer_count(&mut d);
    d.counter.advance(20);
    let b = get_systimer_count(&mut d);
    assert_eq!(b, 9);
    let range = COUNTER_BIT_MASK as u128 + 1;
    let diff = ((b as u128 + range) - a as u128) % range;
    assert_eq!(diff, 20);
    assert!(diff < range / 2);
}

#[test]
fn tick_rate_and_mask_match_the_counter() {
    assert_eq!(TICKS_PER_SECOND, 16_000_000);
    assert_eq!(COUNTER_BIT_MASK, 0x000F_FFFF_FFFF_FFFF);
}
