//! The one source of chance in the library.

use rand::Rng;
use vstd::prelude::*;

verus! {

/// Draws an index from `low..high` with `rand::Rng::gen_range` on the
/// generator that `rand::thread_rng()` hands out. `gen_range` panics on an
/// empty range, so the range must hold a value; every draw lies in it, and
/// nothing more is claimed (the value rests on chance).
#[verifier::external_body]
pub(crate) fn random_index(low: usize, high: usize) -> (r: usize)
    requires
        low < high,
    ensures
        low <= r < high,
{
    rand::thread_rng().gen_range(low..high)
}

} // verus!
