//! Tick-and-preemption substrate of an embedded runtime: a uniform monotonic
//! tick clock over chip-specific counters, a periodic preemption interrupt, a
//! software-triggered yield path, and a dispatch table that routes radio
//! interrupt lines to externally registered handlers.
//!
//! Two hardware backends satisfy the same contract: [`direct`] reads a wide
//! free-running counter and owns a periodic alarm comparator; [`derived`]
//! extends a narrow CPU cycle counter in software and scales it by a fixed
//! rational factor to the nominal tick rate.
//!
//! Hardware registers are modelled as plain values, and every interrupt
//! handler is a verified transition on that state which returns what the
//! surrounding trap shim must do (invoke the task-switch entry point, call a
//! registered radio handler). The shim itself — trap vectors, raw register
//! access, the bootstrap busy-wait — lives outside this crate.

pub mod derived;
pub mod direct;
pub mod dispatch;
pub mod intr;
pub mod preempt;
mod rate;
