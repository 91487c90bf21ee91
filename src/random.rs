use vstd::prelude::*;
use rand::rngs::StdRng;
use rand::Rng;

verus! {

/// The random source that spawning draws from: seeded once, then advanced
/// by each draw.
#[verifier::external_type_specification]
#[verifier::external_body]
pub struct ExStdRng(StdRng);

/// Relies on rand's `Rng::gen_range` over a half-open `i64` range, which
/// returns a value in `[lo, hi)` and panics only on an empty range.
#[verifier::external_body]
pub(crate) fn draw_range(rng: &mut StdRng, lo: i64, hi: i64) -> (r: i64)
    requires
        lo < hi,
    ensures
        lo <= r < hi,
{
    rng.gen_range(lo..hi)
}

} // verus!
