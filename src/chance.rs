use vstd::prelude::*;

verus! {

/// Relies on rand's `Rng::gen_range` with an inclusive range, drawn from the
/// thread-local generator: the value lies in `lo..=hi`. The call panics on an
/// empty range, which `requires` rules out.
#[verifier::external_body]
pub(crate) fn random_between(lo: u64, hi: u64) -> (r: u64)
    requires
        lo <= hi,
    ensures
        lo <= r <= hi,
{
    rand::Rng::gen_range(&mut rand::thread_rng(), lo..=hi)
}

} // verus!
