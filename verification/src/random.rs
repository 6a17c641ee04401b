//! Randomness from `rand`: a small non-cryptographic generator seeded from the
//! operating system, and the three draws the exercise builders make with it.
use vstd::prelude::*;
use crate::db::ExerciseType;

verus! {

/// `rand::rngs::SmallRng`, carried through the exercise builders.
#[verifier::external_type_specification]
#[verifier::external_body]
pub struct ExSmallRng(rand::rngs::SmallRng);

/// A generator seeded from the operating system: `SmallRng::from_entropy()`.
#[verifier::external_body]
pub fn new_rng() -> rand::rngs::SmallRng {
    <rand::rngs::SmallRng as rand::SeedableRng>::from_entropy()
}

/// `SliceRandom::shuffle` on the vector's slice: a Fisher-Yates shuffle that
/// only swaps elements, so the result is a permutation of the input. Which
/// permutation it is depends on the generator.
#[verifier::external_body]
pub fn shuffle_vec<T>(v: &mut Vec<T>, rng: &mut rand::rngs::SmallRng)
    ensures
        final(v)@.to_multiset() == old(v)@.to_multiset(),
{
    rand::seq::SliceRandom::shuffle(v.as_mut_slice(), rng)
}

/// `SliceRandom::choose` on a slice of exercise kinds, copied out: `None` for
/// an empty slice, otherwise one of its elements, which one depending on the
/// generator.
#[verifier::external_body]
pub fn choose_exercise_type(types: &[ExerciseType], rng: &mut rand::rngs::SmallRng) -> (r: Option<ExerciseType>)
    ensures
        types@.len() == 0 <==> r is None,
        r matches Some(t) ==> types@.contains(t),
{
    rand::seq::SliceRandom::choose(types, rng).cloned()
}

/// `Rng::gen_ratio(1, 2)`: true or false with equal chance (the same
/// Bernoulli draw as `gen_bool(0.5)`). Nothing is stated of the value.
#[verifier::external_body]
pub fn coin_flip(rng: &mut rand::rngs::SmallRng) -> bool {
    rand::Rng::gen_ratio(rng, 1, 2)
}

} // verus!
