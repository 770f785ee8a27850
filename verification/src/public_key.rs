//! The public-key wrapper, treated as an opaque input to verification.

use vstd::prelude::*;

verus! {

/// Capability required of a backend public-key point: it only has to expose a
/// mathematical model of itself, its canonical byte encoding.
pub trait TPublicKey: Sized + Clone {
    /// The point's canonical byte encoding, used as its model in contracts.
    spec fn model(&self) -> Seq<u8>;
}

/// A single public key, wrapping one backend point.
#[derive(Clone, PartialEq)]
pub struct PublicKey<Pub> {
    point: Pub,
}

impl<Pub: TPublicKey> View for PublicKey<Pub> {
    type V = Seq<u8>;

    closed spec fn view(&self) -> Seq<u8> {
        self.point.model()
    }
}

impl<Pub: TPublicKey> PublicKey<Pub> {
    /// Wraps a backend public-key point.
    pub fn from_point(point: Pub) -> (r: Self)
        ensures
            r@ == point.model(),
    {
        PublicKey { point }
    }

    /// The wrapped backend point, for backends and verification delegates.
    pub(crate) fn point(&self) -> (r: &Pub)
        ensures
            r.model() == self@,
    {
        &self.point
    }
}

/// The models of a sequence of borrowed public keys, in order.
pub open spec fn public_key_models<Pub: TPublicKey>(keys: Seq<&PublicKey<Pub>>) -> Seq<Seq<u8>> {
    keys.map_values(|k: &PublicKey<Pub>| k@)
}

} // verus!
