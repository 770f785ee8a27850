//! The single-signature wrapper: the minimal shape the aggregate needs.

use vstd::prelude::*;
use core::marker::PhantomData;

verus! {

/// Capability required of a backend single-signature point: it only has to
/// expose a mathematical model of itself, its canonical byte encoding.
pub trait TSignature<Pub>: Sized + Clone {
    /// The point's canonical byte encoding, used as its model in contracts.
    spec fn model(&self) -> Seq<u8>;
}

/// A single BLS signature, wrapping an optional backend point. A `None`
/// signature contributes nothing when folded into an aggregate.
#[derive(Debug, PartialEq)]
pub struct Signature<Pub, Sig> {
    point: Option<Sig>,
    _phantom_pub: PhantomData<Pub>,
}

impl<Pub, Sig: TSignature<Pub>> Clone for Signature<Pub, Sig> {
    /// Deep copy of the held point. The backend's own `Clone` carries no
    /// specification, so only the emptiness of the copy is promised here.
    fn clone(&self) -> (res: Self)
        ensures
            res@ is None <==> self@ is None,
    {
        Signature { point: self.point.clone(), _phantom_pub: PhantomData }
    }
}

impl<Pub, Sig: TSignature<Pub>> View for Signature<Pub, Sig> {
    type V = Option<Seq<u8>>;

    /// `None` when the signature holds no point, else the point's model.
    closed spec fn view(&self) -> Option<Seq<u8>> {
        match self.point {
            Option::None => Option::None,
            Option::Some(p) => Option::Some(p.model()),
        }
    }
}

impl<Pub, Sig: TSignature<Pub>> Signature<Pub, Sig> {
    /// Wraps a backend signature point.
    pub fn from_point(point: Sig) -> (r: Self)
        ensures
            r@ == Option::Some(point.model()),
    {
        Signature { point: Option::Some(point), _phantom_pub: PhantomData }
    }

    /// A signature holding no point at all.
    pub fn empty() -> (r: Self)
        ensures
            r@ is None,
    {
        Signature { point: Option::None, _phantom_pub: PhantomData }
    }

    /// The wrapped backend point, if any.
    pub(crate) fn point(&self) -> (r: Option<&Sig>)
        ensures
            match r {
                Option::None => self@ is None,
                Option::Some(p) => self@ == Option::Some(p.model()),
            },
    {
        self.point.as_ref()
    }
}

} // verus!
