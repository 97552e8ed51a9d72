//! The domain-separated message that both sides sign and check.

use vstd::prelude::*;
use vstd::string::StringSliceAdditionalSpecFns;

verus! {

/// Label that sets this protocol apart from any other use of the same key.
pub const PROTOCOL_LABEL: &'static str = "Secret Number Transcript";

/// Label under which the seed enters the transcript.
pub const SEED_LABEL: &'static str = "seed";

#[verifier::external_type_specification]
#[verifier::external_body]
pub struct ExTranscript(merlin::Transcript);

/// What a transcript has absorbed so far: the labelled messages, in order.
pub uninterp spec fn transcript_log(t: merlin::Transcript) -> Seq<(Seq<u8>, Seq<u8>)>;

/// The label under which `merlin` records a transcript's own name.
pub open spec fn dom_sep() -> Seq<u8> {
    seq![100u8, 111u8, 109u8, 45u8, 115u8, 101u8, 112u8]
}

/// `merlin::Transcript::new` starts a transcript by appending `label` as a
/// message under the label `dom-sep`; like every message, the label must be
/// short enough for its length to fit 32 bits.
pub assume_specification[ merlin::Transcript::new ](label: &'static [u8]) -> (t: merlin::Transcript)
    requires
        label@.len() <= u32::MAX,
    ensures
        transcript_log(t) == seq![(dom_sep(), label@)],
;

/// `merlin::Transcript::append_message` absorbs `label` and `message` after
/// what the transcript already holds. It encodes the message length in 32
/// bits and panics on a longer message.
pub assume_specification[ merlin::Transcript::append_message ](
    t: &mut merlin::Transcript,
    label: &'static [u8],
    message: &[u8],
)
    requires
        message@.len() <= u32::MAX,
    ensures
        transcript_log(*final(t)) == transcript_log(*old(t)).push((label@, message@)),
;

/// The bytes of the two labels.
pub proof fn lemma_labels()
    ensures
        PROTOCOL_LABEL.spec_bytes().len() == 24,
        SEED_LABEL.spec_bytes() == seq![115u8, 101u8, 101u8, 100u8],
{
    reveal_strlit("Secret Number Transcript");
    reveal_strlit("seed");
    assert(vstd::string::is_ascii(PROTOCOL_LABEL));
    assert(vstd::string::is_ascii(SEED_LABEL));
    vstd::string::is_ascii_spec_bytes(PROTOCOL_LABEL);
    vstd::string::is_ascii_spec_bytes(SEED_LABEL);
    assert(SEED_LABEL.spec_bytes() =~= seq![115u8, 101u8, 101u8, 100u8]);
}

/// The log of the transcript that binds `seed` to this protocol.
pub open spec fn seed_log(seed: Seq<u8>) -> Seq<(Seq<u8>, Seq<u8>)> {
    seq![(dom_sep(), PROTOCOL_LABEL.spec_bytes()), (SEED_LABEL.spec_bytes(), seed)]
}

/// Builds the transcript for `seed`: the protocol label, then the seed under
/// its own label.
pub fn build_transcript(seed: &[u8; 32]) -> (t: merlin::Transcript)
    ensures
        transcript_log(t) == seed_log(seed@),
{
    proof {
        lemma_labels();
    }
    let mut t = merlin::Transcript::new(PROTOCOL_LABEL.as_bytes());
    t.append_message(SEED_LABEL.as_bytes(), seed);
    t
}

} // verus!
