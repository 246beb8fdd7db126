//! Signatures: 32 partial chain evaluations, one per hash chain.

use vstd::prelude::*;

use crate::model::blocks_view;

verus! {

broadcast use vstd::array::group_array_axioms;

/// A signature: block `i` is chain `i` evaluated to a depth decided by byte
/// `i` of the message digest. It carries no metadata; the binding to a
/// message is re-established by the verifier hashing the message again.
#[derive(Eq, PartialEq)]
pub struct Signature([[u8; 32]; 32]);

impl View for Signature {
    type V = Seq<Seq<u8>>;

    closed spec fn view(&self) -> Seq<Seq<u8>> {
        blocks_view(self.0)
    }
}

impl Signature {
    /// The raw 32-by-32 byte array of the signature, chain `i` at index `i`.
    pub fn to_bytes(&self) -> (r: [[u8; 32]; 32])
        ensures
            blocks_view(r) == self@,
    {
        self.0
    }

    /// Rebuild a signature from its raw byte array. No validation is
    /// performed.
    pub fn from_bytes(bytes: [[u8; 32]; 32]) -> (r: Signature)
        ensures
            r@ == blocks_view(bytes),
    {
        Signature(bytes)
    }
}

/// Byte round trip: a signature rebuilt from its own byte array equals the
/// original signature. The premises are the contracts of `to_bytes` (on `x`
/// and `bytes`) and `from_bytes` (on `bytes` and `y`).
pub proof fn lemma_signature_bytes_round_trip(x: Signature, bytes: [[u8; 32]; 32], y: Signature)
    requires
        blocks_view(bytes) == x@,
        y@ == blocks_view(bytes),
    ensures
        y == x,
{
    crate::model::lemma_blocks_view_injective(x.0, y.0);
}

} // verus!
