//! Public keys: the 32 chain ends, each the 256-fold hash of its seed.

use vstd::prelude::*;

use crate::chain::chain_iterate;
use crate::chain::iter_hash;
use crate::chain::sha256_digest;
use crate::chain::sha_of;
use crate::model::blocks_view;
use crate::model::spec_public_of;
use crate::model::spec_verify;
use crate::secret::SecretKey;
use crate::signature::Signature;

verus! {

broadcast use vstd::array::group_array_axioms;

/// A public key: the end of each of the 32 hash chains. Deriving it from the
/// secret key is one-way under the hash function's preimage resistance.
#[derive(Eq, PartialEq)]
pub struct PublicKey([[u8; 32]; 32]);

impl View for PublicKey {
    type V = Seq<Seq<u8>>;

    closed spec fn view(&self) -> Seq<Seq<u8>> {
        blocks_view(self.0)
    }
}

/// Compare two 32-byte blocks. Every byte is inspected, with no early exit,
/// so a mismatch does not leak its position through timing.
fn blocks_equal(a: &[u8; 32], b: &[u8; 32]) -> (r: bool)
    ensures
        r == (a@ == b@),
{
    let mut same = true;
    let mut i: usize = 0;
    while i < 32
        invariant
            i <= 32,
            same == (forall|j: int| 0 <= j < i ==> a@[j] == b@[j]),
        decreases 32 - i,
    {
        same = same && (a[i] == b[i]);
        i = i + 1;
    }
    if same {
        assert(a@ =~= b@);
    }
    same
}

impl PublicKey {
    /// Derive the public key of a secret key: walk every chain the full 256
    /// steps from its seed.
    pub fn from_secret(secret: &SecretKey) -> (r: PublicKey)
        ensures
            r@ == spec_public_of(secret@),
    {
        let seeds = secret.to_bytes();
        let mut blocks: [[u8; 32]; 32] = [[0u8; 32]; 32];
        let mut i: usize = 0;
        while i < 32
            invariant
                i <= 32,
                blocks_view(seeds) == secret@,
                forall|j: int| 0 <= j < i ==> #[trigger] blocks[j]@ == spec_public_of(secret@)[j],
            decreases 32 - i,
        {
            blocks[i] = chain_iterate(seeds[i], 256);
            i = i + 1;
        }
        assert(blocks_view(blocks) =~= spec_public_of(secret@));
        PublicKey(blocks)
    }

    /// Verify a signature on a message: walk chain `i` the remaining `d[i]`
    /// steps from signature block `i`, where `d` is the digest of the
    /// message, and compare all 32 results against the stored chain ends.
    /// Returns true exactly when every chain lands on its public block.
    pub fn verify(&self, message: &[u8], signature: Signature) -> (r: bool)
        ensures
            r == spec_verify(self@, message@, signature@),
    {
        let sig = signature.to_bytes();

        let digest = sha256_digest(message);
        let mut ok = true;
        let mut i: usize = 0;
        while i < 32
            invariant
                i <= 32,
                digest@ == sha_of(message@),
                blocks_view(sig) == signature@,
                ok == (forall|j: int|
                    0 <= j < i ==> iter_hash(
                        #[trigger] signature@[j],
                        sha_of(message@)[j] as nat,
                    ) == self@[j]),
            decreases 32 - i,
        {
            let steps: usize = digest[i] as usize;
            let candidate = chain_iterate(sig[i], steps);
            let hit = blocks_equal(&candidate, &self.0[i]);
            proof {
                assert(signature@[i as int] == sig[i as int]@);
                assert(self@[i as int] == self.0[i as int]@);
                assert(steps as nat == sha_of(message@)[i as int] as nat);
                assert(hit == (iter_hash(signature@[i as int], sha_of(message@)[i as int] as nat)
                    == self@[i as int]));
            }
            ok = ok && hit;
            i = i + 1;
        }
        ok
    }

    /// The raw 32-by-32 byte array of the key, chain `i` at index `i`.
    pub fn to_bytes(&self) -> (r: [[u8; 32]; 32])
        ensures
            blocks_view(r) == self@,
    {
        self.0
    }

    /// Rebuild a public key from its raw byte array. No validation is
    /// performed.
    pub fn from_bytes(bytes: [[u8; 32]; 32]) -> (r: PublicKey)
        ensures
            r@ == blocks_view(bytes),
    {
        PublicKey(bytes)
    }
}

/// Byte round trip: a public key rebuilt from its own byte array equals the
/// original key. The premises are the contracts of `to_bytes` (on `x` and
/// `bytes`) and `from_bytes` (on `bytes` and `y`).
pub proof fn lemma_public_key_bytes_round_trip(x: PublicKey, bytes: [[u8; 32]; 32], y: PublicKey)
    requires
        blocks_view(bytes) == x@,
        y@ == blocks_view(bytes),
    ensures
        y == x,
{
    crate::model::lemma_blocks_view_injective(x.0, y.0);
}

} // verus!
