//! The seeded generator from which the scalar field is drawn, and what the
//! library takes on trust about it.

use vstd::prelude::*;

verus! {

/// The generator of the `fastrand` crate. Its state is one 64-bit word.
#[verifier::external_type_specification]
#[verifier::external_body]
pub struct ExRng(fastrand::Rng);

/// The state word that a generator holds: the value that
/// `fastrand::Rng::get_seed` reports for it.
pub uninterp spec fn generator_state(rng: fastrand::Rng) -> u64;

/// What `fastrand::Rng::i32` does on the closed range `low..=high` to a
/// generator whose state word is `state`: the value that it returns, and the
/// state word that the generator holds afterwards.
pub uninterp spec fn i32_draw(state: u64, low: i32, high: i32) -> (i32, u64);

/// Calls `fastrand::Rng::with_seed`. The new generator holds `seed` as its
/// state word: the crate stores the seed unchanged.
#[verifier::external_body]
pub(crate) fn seeded_generator(seed: u64) -> (rng: fastrand::Rng)
    ensures
        generator_state(rng) == seed,
{
    fastrand::Rng::with_seed(seed)
}

/// Calls `fastrand::Rng::i32` on the closed range `low..=high`, which the
/// crate refuses with a panic when it is empty. The value and the new state
/// word depend on the old state word and the range alone, and the value lies
/// in the range.
#[verifier::external_body]
pub(crate) fn draw_i32(rng: &mut fastrand::Rng, low: i32, high: i32) -> (value: i32)
    requires
        low <= high,
    ensures
        (value, generator_state(*final(rng))) == i32_draw(generator_state(*old(rng)), low, high),
        low <= value <= high,
{
    rng.i32(low..=high)
}

/// State word of a generator that started at `seed` and has made `n` draws
/// from `low..=high`.
pub open spec fn state_after(seed: u64, n: nat, low: i32, high: i32) -> u64
    decreases n,
{
    if n == 0 {
        seed
    } else {
        i32_draw(state_after(seed, (n - 1) as nat, low, high), low, high).1
    }
}

/// The values of the first `n` draws from `low..=high` of a generator that
/// started at `seed`, in the order in which they are drawn.
pub open spec fn draws(seed: u64, n: nat, low: i32, high: i32) -> Seq<i32> {
    Seq::new(n, |i: int| i32_draw(state_after(seed, i as nat, low, high), low, high).0)
}

} // verus!
