//! Keypairs: a secret key and the public key derived from it, generated
//! together.

use vstd::prelude::*;

use crate::model::spec_public_of;
use crate::model::spec_sign;
use crate::model::spec_verify;
use crate::public::PublicKey;
use crate::secret::SecretKey;
use crate::signature::Signature;

verus! {

/// A one-time keypair. The two halves are produced together and never
/// swapped independently: the public half is always the full chain
/// evaluation of the secret half.
pub struct Keypair {
    /// The secret half of this keypair.
    pub secret: SecretKey,
    /// The public half of this keypair.
    pub public: PublicKey,
}

impl Keypair {
    /// Generate a keypair from the supplied random source: a fresh secret
    /// key, and the public key derived from it. The caller must supply a
    /// cryptographically secure generator; this is not checked at runtime.
    pub fn generate<R>(csprng: &mut R) -> (kp: Keypair) where
        R: rand::CryptoRng + rand::RngCore,

        ensures
            kp.public@ == spec_public_of(kp.secret@),
    {
        let secret = SecretKey::generate(csprng);
        let public = PublicKey::from_secret(&secret);
        Keypair { secret, public }
    }

    /// Sign a message with the secret half.
    pub fn sign(&self, message: &[u8]) -> (sig: Signature)
        ensures
            sig@ == spec_sign(self.secret@, message@),
    {
        self.secret.sign(message)
    }

    /// Verify a signature on a message against the public half.
    pub fn verify(&self, message: &[u8], signature: Signature) -> (r: bool)
        ensures
            r == spec_verify(self.public@, message@, signature@),
    {
        self.public.verify(message, signature)
    }
}

} // verus!
