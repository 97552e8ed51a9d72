//! What holds of commit and verify together.

use vstd::prelude::*;
use vstd::string::StringSliceAdditionalSpecFns;
use crate::bytes::all_zero;
use crate::game::{verdict_for, Round, Verdict};
use crate::keys::Keypair;
use crate::secret::BOUND;
use crate::transcript::{lemma_labels, seed_log, PROTOCOL_LABEL, SEED_LABEL};
use crate::vrf::{
    committed, lemma_secret_label, proof_accepted, proof_preout, proof_well_formed, verified,
    VerifyError, SECRET_LABEL,
};

verus! {

/// A proof that was committed under a key pair and a seed
/// verifies under the pair's public key and the same seed, and gives back the
/// committed number. The one exception is a commitment that is the identity
/// of the group, which verification refuses as malformed.
pub proof fn law_round_trip(keypair: Keypair, seed: Seq<u8>, secret: u8, proof: Seq<u8>)
    requires
        keypair.wf(),
        seed.len() == 32,
        committed(keypair, seed, secret, proof),
        !all_zero(proof_preout(proof)),
    ensures
        verified(keypair.public_bytes(), seed, proof) == Ok::<u8, VerifyError>(secret),
{
}

/// Two commitments under one key pair and one seed carry the
/// same secret number and the same output commitment, whatever their
/// correctness proofs look like.
pub proof fn law_commit_deterministic(
    keypair: Keypair,
    seed: Seq<u8>,
    first_secret: u8,
    first_proof: Seq<u8>,
    second_secret: u8,
    second_proof: Seq<u8>,
)
    requires
        keypair.wf(),
        seed.len() == 32,
        committed(keypair, seed, first_secret, first_proof),
        committed(keypair, seed, second_secret, second_proof),
    ensures
        first_secret == second_secret,
        proof_preout(first_proof) == proof_preout(second_proof),
{
}

/// A committed number, and a verified one, lies below the bound.
pub proof fn law_secret_in_range(
    keypair: Keypair,
    public: Seq<u8>,
    seed: Seq<u8>,
    secret: u8,
    proof: Seq<u8>,
)
    ensures
        committed(keypair, seed, secret, proof) ==> 0 <= secret < BOUND,
        verified(public, seed, proof) matches Ok(number) ==> 0 <= number < BOUND,
{
}

/// Verification succeeds only on bytes that are a well-formed proof which
/// the scheme accepts; each error names which of the two was missing.
pub proof fn law_verdict_cases(public: Seq<u8>, seed: Seq<u8>, proof: Seq<u8>)
    ensures
        verified(public, seed, proof) is Ok <==> proof_accepted(public, seed, proof),
        verified(public, seed, proof) == Err::<u8, VerifyError>(VerifyError::MalformedProof)
            <==> !proof_well_formed(proof),
        verified(public, seed, proof) == Err::<u8, VerifyError>(VerifyError::InvalidProof) <==> (
            proof_well_formed(proof) && !proof_accepted(public, seed, proof)
        ),
{
}

/// Under one key and one seed, two proofs that carry the same
/// output commitment cannot verify to different numbers. Bytes changed in the
/// correctness proof alone thus either fail or give the committed number.
pub proof fn law_commitment_binds(public: Seq<u8>, seed: Seq<u8>, proof: Seq<u8>, other: Seq<u8>)
    requires
        proof_preout(proof) == proof_preout(other),
        verified(public, seed, proof) is Ok,
        verified(public, seed, other) is Ok,
    ensures
        verified(public, seed, proof) == verified(public, seed, other),
{
}

/// The transcript pins the seed down: two seeds with one transcript are one
/// seed.
pub proof fn law_seed_bound(seed: Seq<u8>, other: Seq<u8>)
    requires
        seed_log(seed) == seed_log(other),
    ensures
        seed == other,
{
    assert(seed_log(seed)[1].1 == seed);
    assert(seed_log(other)[1].1 == other);
}

/// The label under which the secret is drawn differs from
/// the label of the transcript and from the label of the seed.
pub proof fn law_labels_distinct()
    ensures
        SECRET_LABEL.spec_bytes() != PROTOCOL_LABEL.spec_bytes(),
        SECRET_LABEL.spec_bytes() != SEED_LABEL.spec_bytes(),
{
    lemma_secret_label();
    lemma_labels();
}

/// A round that was begun under a key pair settles as honest under the
/// pair's public key, unless its output commitment is the identity of the
/// group.
pub proof fn law_honest_round(keypair: Keypair, round: Round)
    requires
        keypair.wf(),
        committed(keypair, round.seed()@, round.secret(), round.proof_bytes()@),
        !all_zero(proof_preout(round.proof_bytes()@)),
    ensures
        verdict_for(
            round.secret(),
            verified(keypair.public_bytes(), round.seed()@, round.proof_bytes()@),
        ) == Verdict::Honest,
{
    law_round_trip(keypair, round.seed()@, round.secret(), round.proof_bytes()@);
}

} // verus!
