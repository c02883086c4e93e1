//! The random variate source: uniform draws from rand's per-thread generator.
use vstd::prelude::*;
use rand::Rng;
use rand::rngs::ThreadRng;

verus! {

/// rand's `rngs::ThreadRng`, a handle to the calling thread's generator;
/// it is only carried through and never looked into.
#[verifier::external_type_specification]
#[verifier::external_body]
pub struct ExThreadRng(ThreadRng);

/// Relies on rand's `Rng::gen_range(low, high)`: it returns a value of the
/// half-open range `[low, high)` and panics when `low >= high`.
#[verifier::external_body]
pub(crate) fn draw_between(rng: &mut ThreadRng, low: u64, high: u64) -> (r: u64)
    requires
        low < high,
    ensures
        low <= r < high,
{
    rng.gen_range(low, high)
}

} // verus!
