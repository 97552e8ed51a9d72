use honest_guessing_game::keys::{Keypair, PublicKey, KEYPAIR_LENGTH, POINT_LENGTH, SECRET_KEY_LENGTH};

const ORDER: [u8; 32] = [
    237, 211, 245, 92, 26, 99, 18, 88, 214, 156, 247, 162, 222, 249, 222, 20, 0, 0, 0, 0, 0, 0, 0,
    0, 0, 0, 0, 0, 0, 0, 0, 16,
];

#[test]
fn widths_of_the_key_material() {
    assert_eq!(POINT_LENGTH, 32);
    assert_eq!(SECRET_KEY_LENGTH, 64);
    assert_eq!(KEYPAIR_LENGTH, 96);
}

#[test]
fn secret_below_the_order_is_accepted() {
    let mut secret = [0xabu8; 64];
    secret[..32].copy_from_slice(&ORDER);
    secret[0] -= 1;
    let pair = Keypair::from_secret_bytes(&secret).expect("the largest canonical scalar");
    assert_eq!(pair.to_bytes()[..64], secret);
    assert_eq!(pair.to_bytes()[64..], pair.public_key().to_bytes());
}

#[test]
fn secret_at_the_order_is_refused() {
    let mut secret = [0u8; 64];
    secret[..32].copy_from_slice(&ORDER);
    assert!(Keypair::from_secret_bytes(&secret).is_none());
    secret[0] += 1;
    assert!(Keypair::from_secret_bytes(&secret).is_none());
    assert!(Keypair::from_secret_bytes(&[0xff; 64]).is_none());
}

#[test]
fn nonce_seed_is_free() {
    let mut secret = [0u8; 64];
    secret[0] = 1;
    let plain = Keypair::from_secret_bytes(&secret).unwrap();
    for at in 32..64 {
        secret[at] = 0xff;
    }
    let noisy = Keypair::from_secret_bytes(&secret).unwrap();
    assert_eq!(plain.public_key().to_bytes(), noisy.public_key().to_bytes());
}

#[test]
fn scalar_one_gives_the_base_point() {
    let mut secret = [0u8; 64];
    secret[0] = 1;
    let pair = Keypair::from_secret_bytes(&secret).unwrap();
    assert_eq!(
        pair.public_key().to_bytes(),
        [
            0xe2, 0xf2, 0xae, 0x0a, 0x6a, 0xbc, 0x4e, 0x71, 0xa8, 0x84, 0xa9, 0x61, 0xc5, 0x00,
            0x51, 0x5f, 0x58, 0xe3, 0x0b, 0x6a, 0xa5, 0x82, 0xdd, 0x8d, 0xb6, 0xa6, 0x59, 0x45,
            0xe0, 0x8d, 0x2d, 0x76
        ]
    );
}

#[test]
fn public_key_derivation_matches_the_scheme() {
    let mut secret = [0u8; 64];
    for i in 0..64 {
        secret[i] = (i as u8).wrapping_mul(13).wrapping_add(1);
    }
    secret[31] &= 0x0f;
    let pair = Keypair::from_secret_bytes(&secret).unwrap();
    let outside = schnorrkel::SecretKey::from_bytes(&secret).unwrap().to_public();
    assert_eq!(pair.public_key().to_bytes(), outside.to_bytes());
}

#[test]
fn generated_pairs_are_consistent_and_differ() {
    let first = Keypair::generate();
    let second = Keypair::generate();
    assert_ne!(first.to_bytes()[..], second.to_bytes()[..]);
    let bytes = first.to_bytes();
    let mut secret = [0u8; 64];
    secret.copy_from_slice(&bytes[..64]);
    let again = Keypair::from_secret_bytes(&secret).expect("a generated secret is canonical");
    assert_eq!(again.to_bytes()[..], bytes[..]);
    assert_eq!(first.public_key().to_bytes(), bytes[64..]);
}

#[test]
fn public_key_reads_back() {
    let pair = Keypair::generate();
    let bytes = pair.public_key().to_bytes();
    let key = PublicKey::from_bytes(&bytes).expect("the encoding of a point");
    assert_eq!(key.to_bytes(), bytes);
}

#[test]
fn public_key_refuses_what_is_no_point() {
    assert!(PublicKey::from_bytes(&[0xff; 32]).is_none());
    let mut negative = [0u8; 32];
    negative[0] = 1;
    assert!(PublicKey::from_bytes(&negative).is_none());
    assert!(PublicKey::from_bytes(&[0u8; 32]).is_some());
}
