//! Commit and verify: the secret number and the proof that binds it to a
//! seed and a public key.

use vstd::prelude::*;
use vstd::string::StringSliceAdditionalSpecFns;
use crate::bytes::{all_zero, is_all_zero, join96, take};
use crate::keys::{point_decodes, ristretto_decodes, scalar_canonical, Keypair, PublicKey};
use crate::secret::{secret_from_bytes, secret_of, BOUND};
use crate::transcript::{build_transcript, seed_log, transcript_log};

verus! {

/// Width of the output commitment at the head of a proof.
pub const PREOUT_LENGTH: usize = 32;

/// Width of the correctness proof that follows it.
pub const DLEQ_LENGTH: usize = 64;

/// Width of a whole proof.
pub const PROOF_LENGTH: usize = 96;

/// Label under which the secret's bytes are drawn from the output.
pub const SECRET_LABEL: &'static str = "secret";

/// Why a proof was turned down.
#[derive(Clone, Copy, Debug, PartialEq, Eq, Structural)]
pub enum VerifyError {
    /// The bytes are no proof at all: wrong width, or a field that does not
    /// decode.
    MalformedProof,
    /// The bytes decode, and the proof does not hold for this seed and key.
    InvalidProof,
}

#[verifier::external_type_specification]
#[verifier::external_body]
pub struct ExSignatureError(schnorrkel::SignatureError);

/// The input and the output of one evaluation, both as compressed points.
pub(crate) struct InOut {
    pub(crate) input: [u8; 32],
    pub(crate) output: [u8; 32],
}

impl InOut {
    /// Both points decode.
    pub(crate) open spec fn wf(&self) -> bool {
        point_decodes(self.input@) && point_decodes(self.output@)
    }
}

/// The point that a public key and a transcript are hashed to: what
/// `schnorrkel::PublicKey::vrf_hash` returns, compressed.
pub uninterp spec fn vrf_input(public: Seq<u8>, log: Seq<(Seq<u8>, Seq<u8>)>) -> Seq<u8>;

/// The output commitment, the input point multiplied by the secret scalar:
/// what `schnorrkel::SecretKey::vrf_create_from_point` returns, compressed.
pub uninterp spec fn vrf_preout(secret: Seq<u8>, input: Seq<u8>) -> Seq<u8>;

/// Whether the correctness proof `dleq` shows that `output` is `input`
/// multiplied by the scalar behind `public`: whether
/// `schnorrkel::PublicKey::dleq_verify` accepts it.
pub uninterp spec fn vrf_accepts(public: Seq<u8>, input: Seq<u8>, output: Seq<u8>, dleq: Seq<u8>) -> bool;

/// The eight bytes drawn from a pair of input and output under a context
/// label: what `schnorrkel::vrf::VRFInOut::make_bytes` returns.
pub uninterp spec fn vrf_bytes(input: Seq<u8>, output: Seq<u8>, context: Seq<u8>) -> Seq<u8>;

/// A correctness proof parses: two canonical scalars, 32 bytes each.
pub open spec fn dleq_well_formed(dleq: Seq<u8>) -> bool {
    &&& dleq.len() == DLEQ_LENGTH
    &&& scalar_canonical(dleq.subrange(0, 32))
    &&& scalar_canonical(dleq.subrange(32, 64))
}

/// An output commitment can be checked: it decodes, and not to the
/// identity, whose encoding is all zeros.
pub open spec fn preout_usable(preout: Seq<u8>) -> bool {
    point_decodes(preout) && !all_zero(preout)
}

/// `schnorrkel::vrf::VRFProof::from_bytes` accepts 64 bytes exactly when each
/// half is a canonical scalar.
#[verifier::external_body]
fn dleq_decodes(dleq: &[u8; 64]) -> (ok: bool)
    ensures
        ok == dleq_well_formed(dleq@),
{
    schnorrkel::vrf::VRFProof::from_bytes(dleq).is_ok()
}

/// `schnorrkel::Keypair::vrf_sign` hashes the transcript and the public key
/// to the input point `I`, multiplies it by the secret scalar `k` to get the
/// output `O`, and proves that it did. The proof is a challenge `c` and a
/// response `s = r - c * k`, both reduced modulo the group order, for a nonce
/// `r` that is drawn afresh on each call: only the two points are determined
/// by the arguments.
///
/// The verifier recomputes `c * K + s * G` and `c * O + s * I` and compares
/// the challenge they hash to with `c`. With `K = k * G`, which a valid pair
/// has, these are the signer's `r * G` and `r * I`, so the proof is accepted.
/// The one exception is an output that is the identity, which `vrf_verify`
/// turns down before it looks at the proof.
///
/// The nonce is drawn from the operating system's generator, and the call
/// aborts where that fails.
#[verifier::external_body]
fn vrf_sign(keypair: &Keypair, t: merlin::Transcript) -> (signed: (InOut, [u8; 64]))
    requires
        keypair.wf(),
    ensures
        signed.0.wf(),
        signed.0.input@ == vrf_input(keypair.public_bytes(), transcript_log(t)),
        signed.0.output@ == vrf_preout(keypair.secret_bytes(), signed.0.input@),
        dleq_well_formed(signed.1@),
        !all_zero(signed.0.output@) ==> vrf_accepts(
            keypair.public_bytes(),
            signed.0.input@,
            signed.0.output@,
            signed.1@,
        ),
{
    let pair = schnorrkel::Keypair::from_bytes(&keypair.bytes).unwrap();
    let (io, dleq, _) = pair.vrf_sign(t);
    (InOut { input: io.input.to_bytes(), output: io.output.to_bytes() }, dleq.to_bytes())
}

/// `schnorrkel::PublicKey::vrf_verify` hashes the transcript and the key to
/// the input point, decodes the output commitment, refuses the identity, and
/// then checks the correctness proof. On success it hands back the pair of
/// points it checked.
#[verifier::external_body]
fn vrf_verify(
    public: &PublicKey,
    t: merlin::Transcript,
    preout: &[u8; 32],
    dleq: &[u8; 64],
) -> (outcome: Result<InOut, schnorrkel::SignatureError>)
    requires
        public.wf(),
        dleq_well_formed(dleq@),
    ensures
        outcome is Ok <==> (preout_usable(preout@) && vrf_accepts(
            public@,
            vrf_input(public@, transcript_log(t)),
            preout@,
            dleq@,
        )),
        outcome matches Ok(io) ==> io.wf(),
        outcome matches Ok(io) ==> io.input@ == vrf_input(public@, transcript_log(t)),
        outcome matches Ok(io) ==> io.output@ == preout@,
{
    let key = schnorrkel::PublicKey::from_bytes(&public.bytes).unwrap();
    let out = schnorrkel::vrf::VRFPreOut::from_bytes(preout).unwrap();
    let dleq = schnorrkel::vrf::VRFProof::from_bytes(dleq).unwrap();
    match key.vrf_verify(t, &out, &dleq) {
        Ok((io, _)) => Ok(InOut { input: io.input.to_bytes(), output: io.output.to_bytes() }),
        Err(e) => Err(e),
    }
}

/// `schnorrkel::vrf::VRFInOut::make_bytes` hashes the context and the two
/// compressed points, and fills the eight bytes asked for from the hash.
#[verifier::external_body]
fn make_bytes(io: &InOut, context: &[u8]) -> (bytes: [u8; 8])
    requires
        io.wf(),
        context@.len() <= u32::MAX,
    ensures
        bytes@ == vrf_bytes(io.input@, io.output@, context@),
{
    let pair = schnorrkel::vrf::VRFInOut {
        input: schnorrkel::points::RistrettoBoth::from_bytes(&io.input).unwrap(),
        output: schnorrkel::points::RistrettoBoth::from_bytes(&io.output).unwrap(),
    };
    pair.make_bytes::<[u8; 8]>(context)
}

/// The bytes of the label under which the secret is drawn.
pub proof fn lemma_secret_label()
    ensures
        SECRET_LABEL.spec_bytes() == seq![115u8, 101u8, 99u8, 114u8, 101u8, 116u8],
{
    reveal_strlit("secret");
    assert(vstd::string::is_ascii(SECRET_LABEL));
    vstd::string::is_ascii_spec_bytes(SECRET_LABEL);
    assert(SECRET_LABEL.spec_bytes() =~= seq![115u8, 101u8, 99u8, 114u8, 101u8, 116u8]);
}

/// The point that `public` and the transcript of `seed` are hashed to.
pub open spec fn input_point(public: Seq<u8>, seed: Seq<u8>) -> Seq<u8> {
    vrf_input(public, seed_log(seed))
}

/// The secret number that the output commitment `preout` stands for, under
/// `public` and `seed`.
pub open spec fn secret_for(public: Seq<u8>, seed: Seq<u8>, preout: Seq<u8>) -> nat {
    secret_of(vrf_bytes(input_point(public, seed), preout, SECRET_LABEL.spec_bytes()), BOUND as nat)
}

/// The output commitment of a proof: its first 32 bytes.
pub open spec fn proof_preout(proof: Seq<u8>) -> Seq<u8> {
    proof.subrange(0, PREOUT_LENGTH as int)
}

/// The correctness proof inside a proof: the 64 bytes after the commitment.
pub open spec fn proof_dleq(proof: Seq<u8>) -> Seq<u8> {
    proof.subrange(PREOUT_LENGTH as int, PROOF_LENGTH as int)
}

/// `proof` has the width of a proof and both fields decode.
pub open spec fn proof_well_formed(proof: Seq<u8>) -> bool {
    &&& proof.len() == PROOF_LENGTH
    &&& preout_usable(proof_preout(proof))
    &&& dleq_well_formed(proof_dleq(proof))
}

/// `proof` decodes and holds for `public` and `seed`.
pub open spec fn proof_accepted(public: Seq<u8>, seed: Seq<u8>, proof: Seq<u8>) -> bool {
    &&& proof_well_formed(proof)
    &&& vrf_accepts(public, input_point(public, seed), proof_preout(proof), proof_dleq(proof))
}

/// What verification returns for a key, a seed and the bytes of a proof.
pub open spec fn verified(public: Seq<u8>, seed: Seq<u8>, proof: Seq<u8>) -> Result<u8, VerifyError> {
    if !proof_well_formed(proof) {
        Err(VerifyError::MalformedProof)
    } else if !proof_accepted(public, seed, proof) {
        Err(VerifyError::InvalidProof)
    } else {
        Ok(secret_for(public, seed, proof_preout(proof)) as u8)
    }
}

/// What a commitment under `keypair` and `seed` is: the output commitment is
/// the one the secret key determines, the secret number is drawn from it, and
/// the correctness proof decodes and, unless the commitment is the identity,
/// is accepted under the pair's public key.
pub open spec fn committed(keypair: Keypair, seed: Seq<u8>, secret: u8, proof: Seq<u8>) -> bool {
    let public = keypair.public_bytes();
    let input = input_point(public, seed);
    let preout = proof_preout(proof);
    &&& proof.len() == PROOF_LENGTH
    &&& preout == vrf_preout(keypair.secret_bytes(), input)
    &&& point_decodes(preout)
    &&& dleq_well_formed(proof_dleq(proof))
    &&& !all_zero(preout) ==> vrf_accepts(public, input, preout, proof_dleq(proof))
    &&& secret as nat == secret_for(public, seed, preout)
    &&& secret < BOUND
}

/// The secret number that an evaluation stands for: eight bytes drawn from
/// it under [`SECRET_LABEL`], reduced modulo [`BOUND`]. Both sides derive the
/// number here.
fn extract_secret(io: &InOut) -> (secret: u8)
    requires
        io.wf(),
    ensures
        secret as nat == secret_of(
            vrf_bytes(io.input@, io.output@, SECRET_LABEL.spec_bytes()),
            BOUND as nat,
        ),
        secret < BOUND,
{
    proof {
        lemma_secret_label();
    }
    let drawn = make_bytes(io, SECRET_LABEL.as_bytes());
    secret_from_bytes(&drawn, BOUND)
}

/// Commits to the secret number for `seed` under `keypair`, and proves it.
///
/// The proof is the 32-byte output commitment followed by the 64-byte
/// correctness proof.
pub fn commit(keypair: &Keypair, seed: &[u8; 32]) -> (out: (u8, [u8; 96]))
    ensures
        committed(*keypair, seed@, out.0, out.1@),
{
    proof {
        use_type_invariant(keypair);
    }
    let t = build_transcript(seed);
    let (io, dleq) = vrf_sign(keypair, t);
    let secret = extract_secret(&io);
    let proof = join96(&io.output, &dleq);
    proof {
        assert(proof_preout(proof@) =~= io.output@);
        assert(proof_dleq(proof@) =~= dleq@);
    }
    (secret, proof)
}

/// Recomputes the secret number from `seed` and `proof` under `public`, or
/// says why the proof is turned down.
pub fn verify(public: &PublicKey, seed: &[u8; 32], proof: &[u8]) -> (outcome: Result<u8, VerifyError>)
    ensures
        outcome == verified(public@, seed@, proof@),
{
    proof {
        use_type_invariant(public);
    }
    if proof.len() != PROOF_LENGTH {
        return Err(VerifyError::MalformedProof);
    }
    let preout = take::<32>(proof, 0);
    let dleq = take::<64>(proof, PREOUT_LENGTH);
    if !dleq_decodes(&dleq) {
        return Err(VerifyError::MalformedProof);
    }
    if !ristretto_decodes(&preout) || is_all_zero(&preout) {
        return Err(VerifyError::MalformedProof);
    }
    let t = build_transcript(seed);
    match vrf_verify(public, t, &preout, &dleq) {
        Ok(io) => Ok(extract_secret(&io)),
        Err(_) => Err(VerifyError::InvalidProof),
    }
}

} // verus!
