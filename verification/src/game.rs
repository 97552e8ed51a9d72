//! One round of the game: a committed secret, the guesses made at it, and
//! the verdict once the proof has been checked.

use vstd::prelude::*;
use crate::keys::{Keypair, PublicKey};
use crate::vrf::{commit, committed, verified, verify, VerifyError};

verus! {

/// What the guesser is told about a guess.
#[derive(Clone, Copy, Debug, PartialEq, Eq, Structural)]
pub enum Hint {
    /// The guess lies above the secret.
    TooBig,
    /// The guess lies below the secret.
    TooSmall,
    /// The guess is the secret.
    Found,
}

/// How a round ended once its proof was checked.
#[derive(Clone, Copy, Debug, PartialEq, Eq, Structural)]
pub enum Verdict {
    /// The proof verifies and gives the committed number.
    Honest,
    /// The proof verifies, and to another number than the committed one.
    Mismatch { committed: u8, recovered: u8 },
    /// The proof does not verify.
    Rejected { committed: u8, error: VerifyError },
}

/// The hint that `guess` earns against `secret`.
pub open spec fn hint_for(guess: u8, secret: u8) -> Hint {
    if guess > secret {
        Hint::TooBig
    } else if guess < secret {
        Hint::TooSmall
    } else {
        Hint::Found
    }
}

/// The verdict on a round that committed to `committed` and whose proof was
/// checked with `outcome`.
pub open spec fn verdict_for(committed: u8, outcome: Result<u8, VerifyError>) -> Verdict {
    match outcome {
        Ok(recovered) => if recovered == committed {
            Verdict::Honest
        } else {
            Verdict::Mismatch { committed, recovered }
        },
        Err(error) => Verdict::Rejected { committed, error },
    }
}

/// Compares a guess with the secret.
pub fn judge(guess: u8, secret: u8) -> (hint: Hint)
    ensures
        hint == hint_for(guess, secret),
{
    if guess > secret {
        Hint::TooBig
    } else if guess < secret {
        Hint::TooSmall
    } else {
        Hint::Found
    }
}

/// Holds the outcome of a check against the committed number. A failed
/// check is never passed off as a success.
pub fn audit(committed: u8, outcome: Result<u8, VerifyError>) -> (verdict: Verdict)
    ensures
        verdict == verdict_for(committed, outcome),
{
    match outcome {
        Ok(recovered) => {
            if recovered == committed {
                Verdict::Honest
            } else {
                Verdict::Mismatch { committed, recovered }
            }
        },
        Err(error) => Verdict::Rejected { committed, error },
    }
}

/// A round from its commitment on. The seed, the secret and the proof are
/// fixed when the round begins; only the count of guesses moves.
pub struct Round {
    seed: [u8; 32],
    secret: u8,
    proof: [u8; 96],
    tries: u64,
    found: bool,
}

impl Round {
    /// The seed of this round.
    pub closed spec fn seed_spec(&self) -> [u8; 32] {
        self.seed
    }

    /// The number this round committed to.
    pub closed spec fn secret_spec(&self) -> u8 {
        self.secret
    }

    /// The proof this round handed out.
    pub closed spec fn proof_spec(&self) -> [u8; 96] {
        self.proof
    }

    /// How many guesses were made.
    pub closed spec fn tries_spec(&self) -> u64 {
        self.tries
    }

    /// Whether a guess has hit the secret.
    pub closed spec fn found_spec(&self) -> bool {
        self.found
    }

    /// Begins a round: commits to the secret for `seed` under `keypair`. No
    /// guess has been made yet.
    pub fn begin(keypair: &Keypair, seed: &[u8; 32]) -> (round: Round)
        ensures
            round.seed() == *seed,
            committed(*keypair, seed@, round.secret(), round.proof_bytes()@),
            round.tries() == 0,
            !round.is_found(),
    {
        let (secret, proof) = commit(keypair, seed);
        Round { seed: *seed, secret, proof, tries: 0, found: false }
    }

    /// Takes one guess: counts it and says how it compares with the secret.
    /// The commitment stays as it is.
    pub fn guess(&mut self, guess: u8) -> (hint: Hint)
        requires
            old(self).tries() < u64::MAX,
        ensures
            hint == hint_for(guess, old(self).secret()),
            final(self).tries() == old(self).tries() + 1,
            final(self).is_found() == (old(self).is_found() || hint == Hint::Found),
            final(self).seed() == old(self).seed(),
            final(self).secret() == old(self).secret(),
            final(self).proof_bytes() == old(self).proof_bytes(),
    {
        let hint = judge(guess, self.secret);
        self.tries = self.tries + 1;
        if hint == Hint::Found {
            self.found = true;
        }
        hint
    }

    /// Checks this round's own proof under `public` and gives the verdict.
    pub fn settle(&self, public: &PublicKey) -> (verdict: Verdict)
        ensures
            verdict == verdict_for(
                self.secret(),
                verified(public@, self.seed()@, self.proof_bytes()@),
            ),
    {
        audit(self.secret, verify(public, &self.seed, &self.proof))
    }

    /// The seed, to publish when the round begins.
    #[verifier::when_used_as_spec(seed_spec)]
    pub fn seed(&self) -> (seed: [u8; 32])
        ensures
            seed == self.seed(),
    {
        self.seed
    }

    /// The proof, to publish when the round begins.
    #[verifier::when_used_as_spec(proof_spec)]
    pub fn proof_bytes(&self) -> (proof: [u8; 96])
        ensures
            proof == self.proof_bytes(),
    {
        self.proof
    }

    /// The committed number, to reveal when the round is over.
    #[verifier::when_used_as_spec(secret_spec)]
    pub fn secret(&self) -> (secret: u8)
        ensures
            secret == self.secret(),
    {
        self.secret
    }

    /// The count of guesses so far.
    #[verifier::when_used_as_spec(tries_spec)]
    pub fn tries(&self) -> (tries: u64)
        ensures
            tries == self.tries(),
    {
        self.tries
    }

    /// Whether the secret has been found.
    #[verifier::when_used_as_spec(found_spec)]
    pub fn is_found(&self) -> (found: bool)
        ensures
            found == self.is_found(),
    {
        self.found
    }
}

} // verus!
