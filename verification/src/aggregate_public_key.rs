//! The aggregate public-key capability, needed only as a bound on backends.

use vstd::prelude::*;

verus! {

/// Capability required of a backend aggregate public-key point. This crate
/// never inspects such a value; the bound only threads the backend's choice of
/// type through the generic wrappers.
pub trait TAggregatePublicKey: Sized + Clone {
    /// The point's canonical byte encoding, used as its model in contracts.
    spec fn model(&self) -> Seq<u8>;
}

} // verus!
