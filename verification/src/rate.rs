use vstd::prelude::*;

verus! {

/// Relies on fugit's rate-to-duration conversion,
/// `Rate::<u64, 1, 1>::to_duration` into a microseconds duration (which goes
/// through `Duration::try_from_rate`): one period of a rate of `hz` events
/// per second is `1_000_000 / hz` microseconds, the division truncating
/// toward zero. The conversion panics on a zero rate, so that input is
/// excluded here.
#[verifier::external_body]
pub(crate) fn rate_period_micros(hz: u64) -> (r: u64)
    requires
        1 <= hz,
    ensures
        r == 1_000_000u64 / hz,
{
    let rate: fugit::Rate<u64, 1, 1> = fugit::Rate::<u64, 1, 1>::from_raw(hz);
    let period: fugit::MicrosDurationU64 = rate.to_duration();
    period.as_ticks()
}

} // verus!
