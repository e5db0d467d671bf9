use vstd::prelude::*;

verus! {

/// Which interrupt line asked for a preemption: the periodic tick alarm, or
/// the dedicated software-triggered yield line. The two converge on the same
/// task-switch entry point but stay distinguishable by their line.
#[derive(Clone, Copy, Debug, PartialEq, Eq, Structural)]
pub enum PreemptSource {
    Tick,
    Yield,
}

/// One owed invocation of the external task-switch entry point. Every
/// preemption-capable handler produces exactly one of these; the trap shim
/// that ran the handler must invoke the entry point once, with the trapped
/// register frame, before the interrupt returns.
#[derive(Clone, Copy, Debug, PartialEq, Eq, Structural)]
pub struct SwitchRequest {
    pub source: PreemptSource,
}

} // verus!
