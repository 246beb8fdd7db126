//! The hash-chain primitive: a one-way hash function iterated a given number
//! of times, each application feeding on the previous 32-byte output.

use vstd::prelude::*;

verus! {

broadcast use vstd::array::group_array_axioms;

/// The SHA-256 digest of a byte sequence. The digest is a function of the
/// input bytes alone; nothing further is assumed of its value.
pub uninterp spec fn sha_of(bytes: Seq<u8>) -> Seq<u8>;

/// Relies on `sha256_rs::sha256`: it computes the 32-byte SHA-256 digest of
/// its input, a pure function of the input bytes.
#[verifier::external_body]
pub(crate) fn sha256_digest(bytes: &[u8]) -> (r: [u8; 32])
    ensures
        r@ == sha_of(bytes@),
{
    sha256_rs::sha256(bytes)
}

/// The hash function applied `n` times in sequence, starting from `value`;
/// `n == 0` returns `value` unchanged.
pub open spec fn iter_hash(value: Seq<u8>, n: nat) -> Seq<u8>
    decreases n,
{
    if n == 0 {
        value
    } else {
        sha_of(iter_hash(value, (n - 1) as nat))
    }
}

/// Chain algebra: walking `a` steps and then `b` steps down a hash chain is
/// the same as walking `a + b` steps at once.
pub proof fn lemma_iter_hash_add(value: Seq<u8>, a: nat, b: nat)
    ensures
        iter_hash(iter_hash(value, a), b) == iter_hash(value, a + b),
    decreases b,
{
    if b > 0 {
        lemma_iter_hash_add(value, a, (b - 1) as nat);
    }
}

/// Apply the hash function `n` times to a 32-byte value, one call per step.
pub(crate) fn chain_iterate(block: [u8; 32], n: usize) -> (r: [u8; 32])
    ensures
        r@ == iter_hash(block@, n as nat),
{
    let mut cur = block;
    let mut i: usize = 0;
    while i < n
        invariant
            i <= n,
            cur@ == iter_hash(block@, i as nat),
        decreases n - i,
    {
        cur = sha256_digest(cur.as_slice());
        i = i + 1;
    }
    cur
}

} // verus!
