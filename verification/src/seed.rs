//! The public seed of a round.

use vstd::prelude::*;

verus! {

/// Width of a seed.
pub const SEED_LENGTH: usize = 32;

/// No secure randomness could be had for a seed.
#[derive(Clone, Copy, Debug, PartialEq, Eq, Structural)]
pub struct EntropyFailure;

#[verifier::external_type_specification]
#[verifier::external_body]
pub struct ExRandError(rand::Error);

/// `rand::Rng::try_fill` on the generator that `rand::thread_rng` hands out
/// writes random bytes over the whole buffer, or reports that it could not.
/// Nothing is known of the bytes.
#[verifier::external_body]
fn draw_seed() -> Result<[u8; 32], rand::Error> {
    let mut seed = [0u8; 32];
    match rand::Rng::try_fill(&mut rand::thread_rng(), &mut seed[..]) {
        Ok(()) => Ok(seed),
        Err(e) => Err(e),
    }
}

/// Turns what the generator reported into the seed of a round: the bytes it
/// filled, or [`EntropyFailure`] where it could not fill them.
pub fn seed_from_draw(drawn: Result<[u8; 32], rand::Error>) -> (seed: Result<[u8; 32], EntropyFailure>)
    ensures
        drawn matches Ok(bytes) ==> seed == Ok::<[u8; 32], EntropyFailure>(bytes),
        drawn is Err ==> seed == Err::<[u8; 32], EntropyFailure>(EntropyFailure),
{
    match drawn {
        Ok(bytes) => Ok(bytes),
        Err(_) => Err(EntropyFailure),
    }
}

/// Draws a fresh 32-byte seed from the thread's secure generator.
pub fn next_seed() -> (seed: Result<[u8; 32], EntropyFailure>)
    ensures
        seed matches Ok(bytes) ==> bytes@.len() == SEED_LENGTH,
{
    seed_from_draw(draw_seed())
}

} // verus!
