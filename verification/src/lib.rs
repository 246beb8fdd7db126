//! Winternitz one-time signatures over 32 hash chains of 32 bytes each,
//! with chain length 256 and no checksum chains.
//!
//! A secret key holds 32 random 32-byte seeds. The public key is each seed
//! pushed 256 steps down its hash chain. A signature on a message leaves each
//! chain at depth `256 - d[i]`, where `d` is the SHA-256 digest of the
//! message; the verifier walks the remaining `d[i]` steps and compares the
//! chain ends against the public key.
//!
//! A secret key is safe to use for at most one message: a second signature
//! under the same key leaks enough chain values to forge signatures on
//! further messages.

mod chain;
mod keypair;
mod model;
mod public;
mod secret;
mod signature;

pub use chain::iter_hash;
pub use chain::lemma_iter_hash_add;
pub use chain::sha_of;
pub use keypair::Keypair;
pub use model::blocks_view;
pub use model::lemma_blocks_view_injective;
pub use model::lemma_chain_algebra;
pub use model::lemma_sign_deterministic;
pub use model::lemma_sign_then_verify;
pub use model::spec_public_of;
pub use model::spec_sign;
pub use model::spec_verify;
pub use public::lemma_public_key_bytes_round_trip;
pub use public::PublicKey;
pub use secret::lemma_secret_key_bytes_round_trip;
pub use secret::SecretKey;
pub use signature::lemma_signature_bytes_round_trip;
pub use signature::Signature;
