//! Trusted boundary to the `rand` crate's seeded generator.
//!
//! The grammars own a `rand::rngs::StdRng`.  For the pinned `rand` version
//! that generator is ChaCha12: seeding and drawing are pure, platform
//! independent functions of the seed, so the abstract model below treats a
//! generator as an opaque state (`rng_stream`) with deterministic draw and
//! step functions.  Nothing is assumed about the drawn values themselves
//! beyond their documented range.

use vstd::prelude::*;
use rand::Rng;
use rand::SeedableRng;

verus! {

#[verifier::external_type_specification]
#[verifier::external_body]
pub struct ExStdRng(rand::rngs::StdRng);

/// The abstract state a generator currently holds.
pub uninterp spec fn rng_stream(r: rand::rngs::StdRng) -> Seq<u64>;

/// The abstract state `StdRng::seed_from_u64` leaves a fresh generator in.
pub uninterp spec fn seeded_stream(seed: u64) -> Seq<u64>;

/// The value a bounded draw yields from a given state.
pub uninterp spec fn stream_draw(st: Seq<u64>, bound: u64) -> u64;

/// The state a bounded draw leaves the generator in.
pub uninterp spec fn stream_next(st: Seq<u64>, bound: u64) -> Seq<u64>;

/// Relies on rand's `StdRng::seed_from_u64`: it fills the ChaCha12 seed from
/// the `u64` by a fixed PCG32 expansion, a pure function of the seed alone,
/// so the resulting state is the same in every process and on every machine.
#[verifier::external_body]
pub(crate) fn rng_from_seed(seed: u64) -> (r: rand::rngs::StdRng)
    ensures
        rng_stream(r) == seeded_stream(seed),
{
    rand::rngs::StdRng::seed_from_u64(seed)
}

/// Relies on rand's `Rng::gen_range` on the half-open integer range
/// `0..bound`: it panics only on an empty range (excluded by `requires`),
/// returns a value inside the range, and both the value and the generator's
/// next state are pure functions of the prior state and the bound.
#[verifier::external_body]
pub(crate) fn rng_below(r: &mut rand::rngs::StdRng, bound: u64) -> (d: u64)
    requires
        bound >= 1,
    ensures
        d < bound,
        d == stream_draw(rng_stream(*old(r)), bound),
        rng_stream(*final(r)) == stream_next(rng_stream(*old(r)), bound),
{
    r.gen_range(0..bound)
}

} // verus!
