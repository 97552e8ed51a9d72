use honest_guessing_game::game::{audit, judge, Hint, Round, Verdict};
use honest_guessing_game::keys::Keypair;
use honest_guessing_game::vrf::{verify, VerifyError};

#[test]
fn judge_compares_with_the_secret() {
    assert_eq!(judge(5, 5), Hint::Found);
    assert_eq!(judge(6, 5), Hint::TooBig);
    assert_eq!(judge(4, 5), Hint::TooSmall);
    assert_eq!(judge(0, 0), Hint::Found);
    assert_eq!(judge(255, 9), Hint::TooBig);
    assert_eq!(judge(0, 9), Hint::TooSmall);
}

#[test]
fn audit_never_passes_a_failure_off() {
    assert_eq!(audit(3, Ok(3)), Verdict::Honest);
    assert_eq!(audit(3, Ok(4)), Verdict::Mismatch { committed: 3, recovered: 4 });
    assert_eq!(
        audit(3, Err(VerifyError::MalformedProof)),
        Verdict::Rejected { committed: 3, error: VerifyError::MalformedProof }
    );
    assert_eq!(
        audit(3, Err(VerifyError::InvalidProof)),
        Verdict::Rejected { committed: 3, error: VerifyError::InvalidProof }
    );
}

#[test]
fn round_counts_guesses_and_keeps_its_commitment() {
    let keypair = Keypair::generate();
    let seed = [0x42u8; 32];
    let mut round = Round::begin(&keypair, &seed);
    assert_eq!(round.seed(), seed);
    assert_eq!(round.tries(), 0);
    assert!(!round.is_found());
    let secret = round.secret();
    let proof = round.proof_bytes();
    assert_eq!(verify(&keypair.public_key(), &seed, &proof), Ok(secret));

    let mut tries = 0;
    for guess in 0..10u8 {
        let hint = round.guess(guess);
        tries += 1;
        assert_eq!(round.tries(), tries);
        assert_eq!(round.secret(), secret);
        assert_eq!(round.proof_bytes(), proof);
        assert_eq!(round.seed(), seed);
        if guess < secret {
            assert_eq!(hint, Hint::TooSmall);
            assert!(!round.is_found());
        } else if guess == secret {
            assert_eq!(hint, Hint::Found);
            assert!(round.is_found());
            break;
        }
    }
    assert!(round.is_found());
    assert_eq!(round.guess(255), Hint::TooBig);
    assert!(round.is_found());
    assert_eq!(round.settle(&keypair.public_key()), Verdict::Honest);
}

#[test]
fn round_settled_under_another_key_is_rejected() {
    let keypair = Keypair::generate();
    let stranger = Keypair::generate();
    let round = Round::begin(&keypair, &[1u8; 32]);
    assert_eq!(
        round.settle(&stranger.public_key()),
        Verdict::Rejected { committed: round.secret(), error: VerifyError::InvalidProof }
    );
}
