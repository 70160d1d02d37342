//! Deterministic test data for the benchmarks.

use rand::Rng;
use rand::SeedableRng;
use crate::reduce::{reduce_spec, BlendMethod, ReferenceResult};
use vstd::prelude::*;

verus! {

#[verifier::external_type_specification]
#[verifier::external_body]
pub struct ExMcg128Xsl64(rand_pcg::Mcg128Xsl64);

/// Seed of the generator behind every data set, so that runs are comparable.
pub const DATA_SEED: u64 = 42;

/// Generated values lie in `0..VALUE_BOUND`.
pub const VALUE_BOUND: u32 = 10;

/// Relies on rand_pcg's `SeedableRng::seed_from_u64` for `Pcg64Mcg`
/// (`Mcg128Xsl64`): a generator whose stream is fixed by the seed.
#[verifier::external_body]
fn seeded_generator(seed: u64) -> rand_pcg::Mcg128Xsl64 {
    rand_pcg::Mcg128Xsl64::seed_from_u64(seed)
}

/// Relies on rand's `Rng::gen_range` on a half-open range: a value in
/// `low..high`; it panics on an empty range, which `requires` rules out.
#[verifier::external_body]
fn draw_in_range(rng: &mut rand_pcg::Mcg128Xsl64, low: u32, high: u32) -> (r: u32)
    requires
        low < high,
    ensures
        low <= r < high,
{
    rng.gen_range(low..high)
}

/// `length` values drawn from a `Pcg64Mcg` generator seeded with
/// [`DATA_SEED`], each below [`VALUE_BOUND`].
pub fn generate_data(length: u32) -> (r: Vec<u32>)
    ensures
        r@.len() == length,
        forall|i: int| 0 <= i < r@.len() ==> #[trigger] r@[i] < VALUE_BOUND,
{
    let mut rng = seeded_generator(DATA_SEED);
    let mut out: Vec<u32> = Vec::new();
    let mut i: u32 = 0;
    while i < length
        invariant
            i <= length,
            out@.len() == i,
            forall|k: int| 0 <= k < out@.len() ==> #[trigger] out@[k] < VALUE_BOUND,
        decreases length - i,
    {
        let v = draw_in_range(&mut rng, 0, VALUE_BOUND);
        out.push(v);
        i = i + 1;
    }
    out
}

/// Generated data and the value that a correct reduction of it gives.
pub struct Workload {
    pub data: Vec<u32>,
    pub reference: ReferenceResult,
}

impl Workload {
    /// `length` generated values and their reduction with `method`; `None`
    /// when `length` is zero, as there is nothing to reduce.
    pub fn generate(length: u32, method: BlendMethod) -> (r: Option<Workload>)
        ensures
            length == 0 ==> r is None,
            length > 0 ==> r is Some,
            r matches Some(w) ==> {
                &&& w.data@.len() == length
                &&& forall|i: int| 0 <= i < w.data@.len() ==> #[trigger] w.data@[i] < VALUE_BOUND
                &&& w.reference.method == method
                &&& w.reference.expected == reduce_spec(method, w.data@)
            },
    {
        let data = generate_data(length);
        match ReferenceResult::from_data(method, &data) {
            Some(reference) => Some(Workload { data, reference }),
            None => None,
        }
    }
}

} // verus!
