use vstd::prelude::*;

verus! {

/// A hardware interrupt line that this substrate enables at setup: the two
/// backends' own tick and yield lines, and the radio lines handed to the
/// dispatch table.
#[derive(Clone, Copy, Debug, PartialEq, Eq, Structural)]
pub enum Line {
    /// periodic alarm comparator of the direct-counter backend
    SystimerTarget0,
    /// software-triggered yield line of the direct-counter backend
    FromCpuIntr3,
    /// general-purpose timer line of the derived-counter backend
    Tg1T0Level,
    WifiMac,
    WifiPwr,
    LpTimer,
    BtMac,
    Rwble,
    BtBb,
}

/// A required interrupt line could not be enabled at setup. This is fatal:
/// initialization is aborted rather than left with a partially armed
/// preemption source.
#[derive(Clone, Copy, Debug, PartialEq, Eq, Structural)]
pub struct SetupError {
    pub line: Line,
}

/// One line of the interrupt controller. `available` says whether the
/// controller can route the line at all (an unmappable or already-owned line
/// cannot be enabled); `priority` is 0 while the line is disabled and holds
/// the configured priority once enabled.
#[derive(Clone, Copy, Debug, PartialEq, Eq, Structural)]
pub struct LineState {
    pub available: bool,
    pub priority: u8,
}

/// Model of the chip's interrupt controller, one state per line this
/// substrate touches.
#[derive(Clone, Copy, Debug, PartialEq, Eq, Structural)]
pub struct InterruptController {
    pub systimer_target0: LineState,
    pub from_cpu_intr3: LineState,
    pub tg1_t0_level: LineState,
    pub wifi_mac: LineState,
    pub wifi_pwr: LineState,
    pub lp_timer: LineState,
    pub bt_mac: LineState,
    pub rwble: LineState,
    pub bt_bb: LineState,
}

pub open spec fn line_state(c: InterruptController, line: Line) -> LineState {
    match line {
        Line::SystimerTarget0 => c.systimer_target0,
        Line::FromCpuIntr3 => c.from_cpu_intr3,
        Line::Tg1T0Level => c.tg1_t0_level,
        Line::WifiMac => c.wifi_mac,
        Line::WifiPwr => c.wifi_pwr,
        Line::LpTimer => c.lp_timer,
        Line::BtMac => c.bt_mac,
        Line::Rwble => c.rwble,
        Line::BtBb => c.bt_bb,
    }
}

/// The controller after `line` has been enabled at `priority`; no other line
/// changes.
pub open spec fn with_line_enabled(
    c: InterruptController,
    line: Line,
    priority: u8,
) -> InterruptController {
    match line {
        Line::SystimerTarget0 => InterruptController {
            systimer_target0: LineState { priority, ..c.systimer_target0 },
            ..c
        },
        Line::FromCpuIntr3 => InterruptController {
            from_cpu_intr3: LineState { priority, ..c.from_cpu_intr3 },
            ..c
        },
        Line::Tg1T0Level => InterruptController {
            tg1_t0_level: LineState { priority, ..c.tg1_t0_level },
            ..c
        },
        Line::WifiMac => InterruptController { wifi_mac: LineState { priority, ..c.wifi_mac }, ..c },
        Line::WifiPwr => InterruptController { wifi_pwr: LineState { priority, ..c.wifi_pwr }, ..c },
        Line::LpTimer => InterruptController { lp_timer: LineState { priority, ..c.lp_timer }, ..c },
        Line::BtMac => InterruptController { bt_mac: LineState { priority, ..c.bt_mac }, ..c },
        Line::Rwble => InterruptController { rwble: LineState { priority, ..c.rwble }, ..c },
        Line::BtBb => InterruptController { bt_bb: LineState { priority, ..c.bt_bb }, ..c },
    }
}

/// Enable `line` at `priority`, as the chip's interrupt-enable service does:
/// a line the controller cannot route is reported as an error, and since a
/// missing preemption or radio source must not be papered over, callers abort
/// setup on `Err`.
pub fn enable(c: &mut InterruptController, line: Line, priority: u8) -> (r: Result<
    (),
    SetupError,
>)
    requires
        1 <= priority,
    ensures
        match r {
            Ok(()) => line_state(*old(c), line).available && *final(c) == with_line_enabled(
                *old(c),
                line,
                priority,
            ),
            Err(e) => !line_state(*old(c), line).available && e == (SetupError { line })
                && *final(c) == *old(c),
        },
{
    let ok = match line {
        Line::SystimerTarget0 => {
            if c.systimer_target0.available {
                c.systimer_target0.priority = priority;
                true
            } else {
                false
            }
        },
        Line::FromCpuIntr3 => {
            if c.from_cpu_intr3.available {
                c.from_cpu_intr3.priority = priority;
                true
            } else {
                false
            }
        },
        Line::Tg1T0Level => {
            if c.tg1_t0_level.available {
                c.tg1_t0_level.priority = priority;
                true
            } else {
                false
            }
        },
        Line::WifiMac => {
            if c.wifi_mac.available {
                c.wifi_mac.priority = priority;
                true
            } else {
                false
            }
        },
        Line::WifiPwr => {
            if c.wifi_pwr.available {
                c.wifi_pwr.priority = priority;
                true
            } else {
                false
            }
        },
        Line::LpTimer => {
            if c.lp_timer.available {
                c.lp_timer.priority = priority;
                true
            } else {
                false
            }
        },
        Line::BtMac => {
            if c.bt_mac.available {
                c.bt_mac.priority = priority;
                true
            } else {
                false
            }
        },
        Line::Rwble => {
            if c.rwble.available {
                c.rwble.priority = priority;
                true
            } else {
                false
            }
        },
        Line::BtBb => {
            if c.bt_bb.available {
                c.bt_bb.priority = priority;
                true
            } else {
                false
            }
        },
    };
    if ok {
        Ok(())
    } else {
        Err(SetupError { line })
    }
}

} // verus!
