//! The draws from `rand` that the session makes. Nothing is promised of a
//! drawn value beyond the range it is drawn from.
use rand::Rng;
use vstd::prelude::*;

verus! {

/// Relies on `rand::random::<bool>`: a fair coin from the thread-local generator.
#[verifier::external_body]
pub(crate) fn coin_flip() -> (r: bool) {
    rand::random::<bool>()
}

/// Relies on `rand::Rng::gen_range` over `lo..=hi` on the thread-local
/// generator: the draw lies in the inclusive range, which must not be empty
/// (`gen_range` panics on an empty range).
#[verifier::external_body]
pub(crate) fn draw_in_range(lo: i64, hi: i64) -> (r: i64)
    requires
        lo <= hi,
    ensures
        lo <= r <= hi,
{
    rand::thread_rng().gen_range(lo..=hi)
}

} // verus!
