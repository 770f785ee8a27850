//! The Merkle tree-hash of the canonical wire form: the 96 bytes are hashed
//! as three packed 32-byte leaf chunks, with no further subtree structure.

use vstd::prelude::*;
use crate::aggregate_public_key::TAggregatePublicKey;
use crate::aggregate_signature::{AggregateSignature, TAggregateSignature, wire_bytes};
use crate::public_key::TPublicKey;
use crate::signature::TSignature;
use crate::Hash256;

verus! {

/// The Merkle root of a byte string hashed as packed 32-byte leaf chunks,
/// at least three of them. Named, not defined: the digest is computed by the
/// outside hashing crate and is a function of the bytes alone.
pub uninterp spec fn merkle_root_of(b: Seq<u8>) -> Seq<u8>;

/// Relies on `tree_hash::merkle_root`: the Merkle root of the given bytes
/// over at least three packed leaf chunks, a pure digest of the bytes alone.
#[verifier::external_body]
pub(crate) fn merkle_root_96(bytes: &[u8]) -> (r: Hash256)
    requires
        bytes@.len() == 96,
    ensures
        r@ == merkle_root_of(bytes@),
{
    let root = tree_hash::merkle_root(bytes, 3);
    Hash256::from_bytes(root.0)
}

impl<Pub, AggPub, Sig, AggSig> AggregateSignature<Pub, AggPub, Sig, AggSig> where
    Pub: TPublicKey,
    AggPub: TAggregatePublicKey,
    Sig: TSignature<Pub>,
    AggSig: TAggregateSignature<Pub, AggPub, Sig>,
 {
    /// The Merkle tree-hash root of the canonical wire form, hashed as three
    /// packed leaf chunks: a pure function of the 96 serialized bytes.
    pub fn tree_hash_root(&self) -> (r: Hash256)
        ensures
            r@ == merkle_root_of(wire_bytes(self@)),
    {
        let bytes = self.serialize();
        merkle_root_96(bytes.as_slice())
    }
}

} // verus!
