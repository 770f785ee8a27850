//! Backend-agnostic wrappers for BLS aggregate signatures.
//!
//! The core type, [`aggregate_signature::AggregateSignature`], represents zero
//! or more signatures folded into a single curve point. The curve arithmetic
//! itself is delegated to a pluggable backend through the capability traits
//! declared in the sibling modules; this crate owns the wrapper's invariants:
//! the empty/zero distinction, order-independent aggregation, and the
//! canonical 96-byte wire form with its reserved all-zero sentinel.

use vstd::prelude::*;

pub mod aggregate_public_key;
pub mod aggregate_signature;
pub mod fake_crypto;
pub mod hex_codec;
pub mod merkle;
pub mod public_key;
pub mod signature;

pub use aggregate_signature::AggregateSignature;
pub use aggregate_signature::TAggregateSignature;
pub use public_key::PublicKey;
pub use public_key::TPublicKey;
pub use signature::Signature;
pub use signature::TSignature;

verus! {

/// Length in bytes of the canonical signature encoding.
pub const SIGNATURE_BYTES_LEN: usize = 96;

/// The reserved wire pattern that stands for "no signature": 96 zero bytes.
pub open spec fn none_signature_bytes() -> Seq<u8> {
    Seq::new(SIGNATURE_BYTES_LEN as nat, |i: int| 0u8)
}

/// The views of a sequence of message digests, in order.
pub open spec fn hash_models(msgs: Seq<Hash256>) -> Seq<Seq<u8>> {
    msgs.map_values(|m: Hash256| m@)
}

/// Errors raised while decoding a signature from bytes or from hex text.
#[derive(Clone, Copy, PartialEq, Eq, Structural, Debug)]
pub enum Error {
    /// The input is not exactly the canonical encoding length.
    InvalidByteLength { got: usize, expected: usize },
    /// The input has the right length but is not a valid curve point.
    InvalidPoint,
    /// Hex text does not start with the required `0x` prefix.
    MissingHexPrefix,
    /// Hex text contains a character outside `0-9a-fA-F`.
    InvalidHexCharacter,
    /// Hex text ends on a dangling half byte.
    OddHexLength,
}

/// A 32-byte message digest, as handed to the verification primitives.
#[derive(Clone, Copy, PartialEq, Eq, Debug)]
pub struct Hash256 {
    bytes: [u8; 32],
}

impl View for Hash256 {
    type V = Seq<u8>;

    closed spec fn view(&self) -> Seq<u8> {
        self.bytes@
    }
}

impl Hash256 {
    /// Wraps a 32-byte digest.
    pub fn from_bytes(bytes: [u8; 32]) -> (r: Self)
        ensures
            r@ == bytes@,
    {
        Hash256 { bytes }
    }

    /// The all-zero digest.
    pub fn zero() -> (r: Self)
        ensures
            r@ == Seq::new(32, |i: int| 0u8),
    {
        let bytes = [0u8; 32];
        proof {
            assert(bytes@ =~= Seq::new(32, |i: int| 0u8));
        }
        Hash256 { bytes }
    }

    /// Reads the digest back as bytes.
    pub fn to_bytes(&self) -> (r: [u8; 32])
        ensures
            r@ == self@,
    {
        self.bytes
    }
}

} // verus!
