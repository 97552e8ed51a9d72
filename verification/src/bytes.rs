//! Fixed-width byte fields: cutting them out of a buffer and joining them.

use vstd::prelude::*;

verus! {

/// The `N` bytes of `src` that start at `start`.
pub fn take<const N: usize>(src: &[u8], start: usize) -> (field: [u8; N])
    requires
        start + N <= src@.len(),
    ensures
        field@ == src@.subrange(start as int, start + N),
{
    let mut field = [0u8; N];
    let len = src.len();
    let mut i: usize = 0;
    while i < N
        invariant
            i <= N,
            len == src@.len(),
            start + N <= len,
            field@.len() == N,
            forall|j: int| 0 <= j < i ==> field@[j] == src@[start + j],
        decreases N - i,
    {
        field[i] = src[start + i];
        i = i + 1;
    }
    proof {
        assert(field@ =~= src@.subrange(start as int, start + N));
    }
    field
}

/// `head` followed by `tail`, for two fields that fill 96 bytes together.
pub fn join96(head: &[u8], tail: &[u8]) -> (joined: [u8; 96])
    requires
        head@.len() + tail@.len() == 96,
    ensures
        joined@ == head@ + tail@,
{
    let mut joined = [0u8; 96];
    let split = head.len();
    let mut i: usize = 0;
    while i < 96
        invariant
            i <= 96,
            split == head@.len(),
            head@.len() + tail@.len() == 96,
            forall|j: int| 0 <= j < i ==> joined@[j] == (head@ + tail@)[j],
        decreases 96 - i,
    {
        if i < split {
            joined[i] = head[i];
        } else {
            joined[i] = tail[i - split];
        }
        i = i + 1;
    }
    proof {
        assert(joined@ =~= head@ + tail@);
    }
    joined
}

/// Whether every byte of `field` is zero.
pub open spec fn all_zero(field: Seq<u8>) -> bool {
    forall|j: int| 0 <= j < field.len() ==> field[j] == 0
}

/// Tells whether every byte of `field` is zero.
pub fn is_all_zero(field: &[u8]) -> (zero: bool)
    ensures
        zero == all_zero(field@),
{
    let mut i: usize = 0;
    while i < field.len()
        invariant
            i <= field@.len(),
            forall|j: int| 0 <= j < i ==> field@[j] == 0,
        decreases field@.len() - i,
    {
        if field[i] != 0 {
            return false;
        }
        i = i + 1;
    }
    true
}

} // verus!
