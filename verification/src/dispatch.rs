use vstd::prelude::*;

verus! {

/// A registered radio interrupt binding: the adapter's handler and the opaque
/// context word it must be passed. The live table holds raw pointers; here
/// both are plain machine words, and a null handler pointer is the `None` of
/// the surrounding `Option` — an explicit empty variant instead of a
/// sentinel.
#[derive(Clone, Copy, Debug, PartialEq, Eq, Structural)]
pub struct Binding {
    pub handler: usize,
    pub context: usize,
}

/// Process-wide bindings for the radio interrupt lines, installed by the
/// radio adapter before the corresponding line is enabled and read-only from
/// interrupt context afterwards. The wifi slot is shared by the MAC and power
/// lines; each Bluetooth line has a slot of its own per backend.
#[derive(Clone, Copy, Debug, PartialEq, Eq)]
pub struct DispatchTable {
    pub wifi: Option<Binding>,
    pub lp_timer: Option<Binding>,
    pub bt_mac: Option<Binding>,
    pub rwble: Option<Binding>,
    pub bt_bb: Option<Binding>,
}

/// A table with nothing registered: every line dispatches as a no-op until
/// the radio adapter installs its binding.
pub fn empty_table() -> (t: DispatchTable)
    ensures
        t == (DispatchTable {
            wifi: None,
            lp_timer: None,
            bt_mac: None,
            rwble: None,
            bt_bb: None,
        }),
{
    DispatchTable { wifi: None, lp_timer: None, bt_mac: None, rwble: None, bt_bb: None }
}

/// What a radio interrupt handler must do for one slot: if a binding is
/// registered, invoke its handler exactly once with the registered context;
/// an unregistered line is a no-op beyond the line's own acknowledgment, and
/// nothing else is touched.
fn dispatch(slot: &Option<Binding>) -> (r: Option<Binding>)
    ensures
        r == *slot,
{
    *slot
}

/// Wifi MAC interrupt line: dispatches through the shared wifi binding.
pub fn wifi_mac(t: &DispatchTable) -> (r: Option<Binding>)
    ensures
        r == t.wifi,
{
    dispatch(&t.wifi)
}

/// Wifi power interrupt line: dispatches through the shared wifi binding.
pub fn wifi_pwr(t: &DispatchTable) -> (r: Option<Binding>)
    ensures
        r == t.wifi,
{
    dispatch(&t.wifi)
}

/// Low-power timer line of the direct-counter chip's Bluetooth block.
pub fn lp_timer(t: &DispatchTable) -> (r: Option<Binding>)
    ensures
        r == t.lp_timer,
{
    dispatch(&t.lp_timer)
}

/// Bluetooth MAC line of the direct-counter chip.
pub fn bt_mac(t: &DispatchTable) -> (r: Option<Binding>)
    ensures
        r == t.bt_mac,
{
    dispatch(&t.bt_mac)
}

/// Bluetooth link-layer line of the derived-counter chip.
pub fn rwble(t: &DispatchTable) -> (r: Option<Binding>)
    ensures
        r == t.rwble,
{
    dispatch(&t.rwble)
}

/// Bluetooth baseband line of the derived-counter chip.
pub fn bt_bb(t: &DispatchTable) -> (r: Option<Binding>)
    ensures
        r == t.bt_bb,
{
    dispatch(&t.bt_bb)
}

/// Install the shared wifi binding. Bindings are write-once: registration
/// happens at radio-driver init, strictly before the line is enabled, and is
/// never repeated.
pub fn register_wifi(t: &mut DispatchTable, b: Binding)
    requires
        old(t).wifi is None,
    ensures
        *final(t) == (DispatchTable { wifi: Some(b), ..*old(t) }),
{
    t.wifi = Some(b);
}

/// Install the low-power-timer binding (write-once).
pub fn register_lp_timer(t: &mut DispatchTable, b: Binding)
    requires
        old(t).lp_timer is None,
    ensures
        *final(t) == (DispatchTable { lp_timer: Some(b), ..*old(t) }),
{
    t.lp_timer = Some(b);
}

/// Install the Bluetooth MAC binding (write-once).
pub fn register_bt_mac(t: &mut DispatchTable, b: Binding)
    requires
        old(t).bt_mac is None,
    ensures
        *final(t) == (DispatchTable { bt_mac: Some(b), ..*old(t) }),
{
    t.bt_mac = Some(b);
}

/// Install the Bluetooth link-layer binding (write-once).
pub fn register_rwble(t: &mut DispatchTable, b: Binding)
    requires
        old(t).rwble is None,
    ensures
        *final(t) == (DispatchTable { rwble: Some(b), ..*old(t) }),
{
    t.rwble = Some(b);
}

/// Install the Bluetooth baseband binding (write-once).
pub fn register_bt_bb(t: &mut DispatchTable, b: Binding)
    requires
        old(t).bt_bb is None,
    ensures
        *final(t) == (DispatchTable { bt_bb: Some(b), ..*old(t) }),
{
    t.bt_bb = Some(b);
}

} // verus!
