//! The pseudo-random number generator of a host.
//!
//! The generator is `Xoshiro256PlusPlus`. Nothing here is verified: the
//! functions of this module call the generator and state what its source
//! shows. What the generator computes is named, not spelled out; the names
//! say that it depends on the seed and on the calls made, and on nothing
//! else.

use rand::RngCore;
use rand::SeedableRng;
use rand_xoshiro::Xoshiro256PlusPlus;
use vstd::prelude::*;

verus! {

/// Makes `rand_xoshiro::Xoshiro256PlusPlus` known as a type. Nothing is said
/// of what is inside a value of it.
#[verifier::external_type_specification]
#[verifier::external_body]
pub struct ExXoshiro256PlusPlus(Xoshiro256PlusPlus);

/// The state of a generator: the words that it keeps between calls.
pub uninterp spec fn generator_state(rng: Xoshiro256PlusPlus) -> Seq<u64>;

/// The state of a generator that was just seeded with `seed`.
pub uninterp spec fn seeded_state(seed: u64) -> Seq<u64>;

/// What a generator in state `state` gives when it is asked for `len`
/// bytes: the bytes, and the state that it is in afterwards.
pub uninterp spec fn drawn_bytes(state: Seq<u64>, len: nat) -> (Seq<u8>, Seq<u64>);

/// Calls `Xoshiro256PlusPlus::seed_from_u64`. The generator that it returns
/// is in the state that belongs to `seed`: the same seed gives the same
/// state every time.
#[verifier::external_body]
pub(crate) fn seed_from_u64(seed: u64) -> (rng: Xoshiro256PlusPlus)
    ensures
        generator_state(rng) == seeded_state(seed),
{
    Xoshiro256PlusPlus::seed_from_u64(seed)
}

/// Calls `fill_bytes` of `Xoshiro256PlusPlus` on the whole of `dest`. Every
/// byte of `dest` is overwritten, and its length stays. The bytes written
/// and the state afterwards depend on the state before and on the number of
/// bytes, and on nothing else.
#[verifier::external_body]
pub(crate) fn fill_bytes(rng: &mut Xoshiro256PlusPlus, dest: &mut Vec<u8>)
    ensures
        final(dest)@ == drawn_bytes(generator_state(*old(rng)), old(dest)@.len()).0,
        final(dest)@.len() == old(dest)@.len(),
        generator_state(*final(rng)) == drawn_bytes(
            generator_state(*old(rng)),
            old(dest)@.len(),
        ).1,
{
    rng.fill_bytes(dest.as_mut_slice())
}

} // verus!
