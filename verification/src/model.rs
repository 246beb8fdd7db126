//! The mathematical model of the scheme: key material as a sequence of 32
//! byte blocks, and the derivation, signing and verification maps over it.

use vstd::prelude::*;

use crate::chain::iter_hash;
use crate::chain::lemma_iter_hash_add;
use crate::chain::sha_of;

verus! {

broadcast use vstd::array::group_array_axioms;

/// A 32-block byte array as a sequence of byte sequences.
pub open spec fn blocks_view(blocks: [[u8; 32]; 32]) -> Seq<Seq<u8>> {
    Seq::new(32, |i: int| blocks[i]@)
}

/// The public key that belongs to a secret key: every seed walked the full
/// 256 steps down its hash chain.
pub open spec fn spec_public_of(secret: Seq<Seq<u8>>) -> Seq<Seq<u8>> {
    Seq::new(32, |i: int| iter_hash(secret[i], 256))
}

/// The signature on a message under a secret key: chain `i` walked
/// `256 - d[i]` steps from its seed, where `d` is the digest of the message.
pub open spec fn spec_sign(secret: Seq<Seq<u8>>, message: Seq<u8>) -> Seq<Seq<u8>> {
    Seq::new(32, |i: int| iter_hash(secret[i], (256 - sha_of(message)[i]) as nat))
}

/// Whether a signature passes verification: walking chain `i` the remaining
/// `d[i]` steps from the signature block must land exactly on public block
/// `i`, for all 32 chains.
pub open spec fn spec_verify(
    public: Seq<Seq<u8>>,
    message: Seq<u8>,
    signature: Seq<Seq<u8>>,
) -> bool {
    forall|i: int|
        0 <= i < 32 ==> iter_hash(#[trigger] signature[i], sha_of(message)[i] as nat) == public[i]
}

/// Chain algebra: a chain walked `256 - d` steps from its seed and then `d`
/// further steps lands on the chain end, for every digest byte `d`.
pub proof fn lemma_chain_algebra(seed: Seq<u8>, d: u8)
    ensures
        iter_hash(iter_hash(seed, (256 - d) as nat), d as nat) == iter_hash(seed, 256),
{
    lemma_iter_hash_add(seed, (256 - d) as nat, d as nat);
}

/// Round-trip correctness: for every secret key and every message, the
/// signature produced under the key verifies against the public key derived
/// from the same key.
pub proof fn lemma_sign_then_verify(secret: Seq<Seq<u8>>, message: Seq<u8>)
    ensures
        spec_verify(spec_public_of(secret), message, spec_sign(secret, message)),
{
    let d = sha_of(message);
    assert forall|i: int|
        0 <= i < 32 implies iter_hash(
        #[trigger] spec_sign(secret, message)[i],
        d[i] as nat,
    ) == spec_public_of(secret)[i] by {
        lemma_chain_algebra(secret[i], d[i]);
    }
}

/// Determinism of signing: any two signatures of one message under one
/// secret key are equal; signing draws on no randomness of its own.
pub proof fn lemma_sign_deterministic(
    secret: Seq<Seq<u8>>,
    message: Seq<u8>,
    s1: Seq<Seq<u8>>,
    s2: Seq<Seq<u8>>,
)
    requires
        s1 == spec_sign(secret, message),
        s2 == spec_sign(secret, message),
    ensures
        s1 == s2,
{
}

/// The block view determines the byte array: equal views mean equal arrays.
pub proof fn lemma_blocks_view_injective(a: [[u8; 32]; 32], b: [[u8; 32]; 32])
    requires
        blocks_view(a) == blocks_view(b),
    ensures
        a == b,
{
    assert forall|i: int| 0 <= i < 32 implies a[i] == b[i] by {
        assert(blocks_view(a)[i] == blocks_view(b)[i]);
        assert(a[i]@ =~= b[i]@);
        assert(a[i] =~= b[i]);
    }
    assert(a =~= b);
}

} // verus!
