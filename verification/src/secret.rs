//! Secret keys: 32 independent random 32-byte seeds, one per hash chain.

use vstd::prelude::*;

use crate::chain::chain_iterate;
use crate::chain::sha256_digest;
use crate::chain::sha_of;
use crate::model::blocks_view;
use crate::model::spec_sign;
use crate::signature::Signature;

verus! {

broadcast use vstd::array::group_array_axioms;

/// A one-time secret key: the base of each of the 32 hash chains.
///
/// A secret key must sign at most one message; a second signature under the
/// same key leaks chain values that allow forgeries.
#[derive(Eq, PartialEq)]
pub struct SecretKey([[u8; 32]; 32]);

impl View for SecretKey {
    type V = Seq<Seq<u8>>;

    closed spec fn view(&self) -> Seq<Seq<u8>> {
        blocks_view(self.0)
    }
}

/// Relies on `rand::RngCore::fill_bytes`: it fills the buffer with bytes
/// from the generator. Nothing is assumed of the bytes' values.
#[verifier::external_body]
fn fill_random_block<R>(csprng: &mut R) -> [u8; 32] where R: rand::CryptoRng + rand::RngCore {
    let mut block = [0u8; 32];
    csprng.fill_bytes(&mut block);
    block
}

impl SecretKey {
    /// Generate a secret key by filling all 32 seeds from the supplied
    /// random source. The caller must supply a cryptographically secure
    /// generator; this is not checked at runtime.
    pub fn generate<R>(csprng: &mut R) -> SecretKey where R: rand::CryptoRng + rand::RngCore {
        let mut blocks: [[u8; 32]; 32] = [[0u8; 32]; 32];
        let mut i: usize = 0;
        while i < 32
            invariant
                i <= 32,
            decreases 32 - i,
        {
            blocks[i] = fill_random_block(csprng);
            i = i + 1;
        }
        SecretKey(blocks)
    }

    /// Sign a message: walk chain `i` down `256 - d[i]` steps from seed `i`,
    /// where `d` is the digest of the message.
    pub fn sign(&self, message: &[u8]) -> (sig: Signature)
        ensures
            sig@ == spec_sign(self@, message@),
    {
        let digest = sha256_digest(message);
        let mut blocks: [[u8; 32]; 32] = [[0u8; 32]; 32];
        let mut i: usize = 0;
        while i < 32
            invariant
                i <= 32,
                digest@ == sha_of(message@),
                forall|j: int| 0 <= j < i ==> #[trigger] blocks[j]@ == spec_sign(self@, message@)[j],
            decreases 32 - i,
        {
            let steps: usize = 256 - digest[i] as usize;
            blocks[i] = chain_iterate(self.0[i], steps);
            i = i + 1;
        }
        assert(blocks_view(blocks) =~= spec_sign(self@, message@));
        Signature::from_bytes(blocks)
    }

    /// The raw 32-by-32 byte array of the key, chain `i` at index `i`.
    pub fn to_bytes(&self) -> (r: [[u8; 32]; 32])
        ensures
            blocks_view(r) == self@,
    {
        self.0
    }

    /// Rebuild a secret key from its raw byte array. No validation is
    /// performed: the bytes are taken as the 32 chain seeds as they stand.
    pub fn from_bytes(bytes: [[u8; 32]; 32]) -> (r: SecretKey)
        ensures
            r@ == blocks_view(bytes),
    {
        SecretKey(bytes)
    }
}

/// Byte round trip: a secret key rebuilt from its own byte array equals the
/// original key. The premises are the contracts of `to_bytes` (on `x` and
/// `bytes`) and `from_bytes` (on `bytes` and `y`).
pub proof fn lemma_secret_key_bytes_round_trip(x: SecretKey, bytes: [[u8; 32]; 32], y: SecretKey)
    requires
        blocks_view(bytes) == x@,
        y@ == blocks_view(bytes),
    ensures
        y == x,
{
    crate::model::lemma_blocks_view_injective(x.0, y.0);
}

} // verus!
