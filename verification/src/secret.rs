//! Reduction of raw pseudorandom bytes to the secret number.

use vstd::prelude::*;

verus! {

/// Exclusive upper limit of the secret number.
pub const BOUND: u8 = 10;

/// Number of pseudorandom bytes drawn for one secret number.
pub const SECRET_BYTES: usize = 8;

/// The unsigned integer that `bytes` spell in little-endian order:
/// `bytes[0] + 256 * bytes[1] + 256^2 * bytes[2] + ...`.
pub open spec fn le_value(bytes: Seq<u8>) -> nat
    decreases bytes.len(),
{
    if bytes.len() == 0 {
        0
    } else {
        bytes[0] as nat + 256 * le_value(bytes.drop_first())
    }
}

/// The secret number that pseudorandom bytes stand for under a bound: their
/// little-endian value reduced modulo the bound.
pub open spec fn secret_of(bytes: Seq<u8>, bound: nat) -> nat {
    le_value(bytes) % bound
}

/// The value of a tail, by its first byte and the tail after it.
proof fn lemma_le_value_step(bytes: Seq<u8>, k: int)
    requires
        0 <= k < bytes.len(),
    ensures
        le_value(bytes.skip(k)) == bytes[k] as nat + 256 * le_value(bytes.skip(k + 1)),
{
    assert(bytes.skip(k).drop_first() =~= bytes.skip(k + 1));
}

/// `256^n` for `n >= 0`, and 1 below that.
spec fn pow256(n: int) -> int
    decreases n,
{
    if n <= 0 {
        1
    } else {
        256 * pow256(n - 1)
    }
}

proof fn lemma_pow256_step(n: int)
    requires
        n >= 1,
    ensures
        pow256(n) == 256 * pow256(n - 1),
{
}

proof fn lemma_pow256_bound(n: int)
    requires
        0 <= n <= 8,
    ensures
        pow256(n) <= 0x1_0000_0000_0000_0000,
        pow256(n) >= 1,
    decreases n,
{
    reveal_with_fuel(pow256, 10);
}

/// Little-endian value of eight bytes.
pub fn le_u64(bytes: &[u8; 8]) -> (value: u64)
    ensures
        value as nat == le_value(bytes@),
{
    let mut acc: u64 = 0;
    let mut i: usize = 8;
    proof {
        assert(bytes@.skip(8) =~= Seq::<u8>::empty());
    }
    while i > 0
        invariant
            i <= 8,
            bytes@.len() == 8,
            acc as nat == le_value(bytes@.skip(i as int)),
            (acc as int) < pow256(8 - i as int),
        decreases i,
    {
        i = i - 1;
        proof {
            lemma_le_value_step(bytes@, i as int);
            lemma_pow256_step(8 - i as int);
            lemma_pow256_bound(8 - i as int);
        }
        acc = acc * 256 + bytes[i] as u64;
    }
    proof {
        assert(bytes@.skip(0) =~= bytes@);
    }
    acc
}

/// The secret number drawn from eight pseudorandom bytes: their
/// little-endian value reduced modulo `bound`. Commit and verify both derive
/// the number here, with [`BOUND`].
///
/// Where `bound` does not divide `2^64`, the residues below `2^64 % bound`
/// each have one more preimage than the others: a bias of less than one part
/// in `2^56`, which a game can live with and a lottery should not.
pub fn secret_from_bytes(bytes: &[u8; 8], bound: u8) -> (secret: u8)
    requires
        bound > 0,
    ensures
        secret as nat == secret_of(bytes@, bound as nat),
        secret < bound,
{
    let value = le_u64(bytes);
    let reduced: u64 = value % (bound as u64);
    reduced as u8
}

} // verus!
