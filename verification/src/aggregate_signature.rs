//! The aggregate-signature wrapper: zero or more signatures folded into one
//! backend point, with an explicit "empty" state distinct from the curve
//! identity, and a canonical 96-byte wire form whose all-zero pattern is
//! reserved for the empty state.

use vstd::prelude::*;
use core::marker::PhantomData;
use crate::aggregate_public_key::TAggregatePublicKey;
use crate::public_key::{PublicKey, TPublicKey, public_key_models};
use crate::signature::{Signature, TSignature};
use crate::{Error, Hash256, SIGNATURE_BYTES_LEN, hash_models, none_signature_bytes};

verus! {

/// Capability required of a backend aggregate-signature point.
///
/// All contracts are stated over the point's canonical byte encoding
/// (`model`): the encoding is canonical, so two points are equal exactly when
/// their encodings are. A backend supplies, besides the executable
/// operations, the algebraic facts the wrapper's guarantees rest on: addition
/// is commutative and associative, the identity point absorbs nothing, real
/// point encodings are 96 bytes and never all-zero, and single-signature
/// points encode as valid aggregate points.
pub trait TAggregateSignature<Pub, AggPub, Sig>: Sized + Clone where
    Pub: TPublicKey,
    AggPub: TAggregatePublicKey,
    Sig: TSignature<Pub>,
 {
    /// The point's canonical byte encoding, used as its model in contracts.
    spec fn model(&self) -> Seq<u8>;

    /// The canonical encoding of the curve identity point.
    spec fn spec_zero() -> Seq<u8>;

    /// Point addition, expressed on canonical encodings.
    spec fn spec_add(a: Seq<u8>, b: Seq<u8>) -> Seq<u8>;

    /// Which byte strings are canonical encodings of valid points.
    spec fn spec_valid(b: Seq<u8>) -> bool;

    /// The backend's single-message, many-keys verification predicate.
    spec fn spec_verify_one(point: Seq<u8>, msg: Seq<u8>, keys: Seq<Seq<u8>>) -> bool;

    /// The backend's many-messages, many-keys verification predicate.
    spec fn spec_verify_many(point: Seq<u8>, msgs: Seq<Seq<u8>>, keys: Seq<Seq<u8>>) -> bool;

    /// Every held point value encodes canonically.
    proof fn lemma_model_valid(&self)
        ensures
            Self::spec_valid(self.model()),
    ;

    /// Valid encodings are exactly 96 bytes and never the reserved all-zero
    /// pattern, so the empty sentinel can never collide with a real point.
    proof fn lemma_valid_well_formed(b: Seq<u8>)
        ensures
            Self::spec_valid(b) ==> b.len() == SIGNATURE_BYTES_LEN
                && b != none_signature_bytes(),
    ;

    /// A single-signature point's encoding is a valid aggregate encoding.
    proof fn lemma_sig_model_valid(s: &Sig)
        ensures
            Self::spec_valid(s.model()),
    ;

    /// Point addition is commutative.
    proof fn lemma_add_commutative(a: Seq<u8>, b: Seq<u8>)
        ensures
            Self::spec_add(a, b) == Self::spec_add(b, a),
    ;

    /// Point addition is associative.
    proof fn lemma_add_associative(a: Seq<u8>, b: Seq<u8>, c: Seq<u8>)
        ensures
            Self::spec_add(Self::spec_add(a, b), c) == Self::spec_add(a, Self::spec_add(b, c)),
    ;

    /// The identity point is neutral for addition.
    proof fn lemma_zero_is_identity(b: Seq<u8>)
        requires
            Self::spec_valid(b),
        ensures
            Self::spec_add(Self::spec_zero(), b) == b,
    ;

    /// The curve identity point.
    fn zero() -> (r: Self)
        ensures
            r.model() == Self::spec_zero(),
    ;

    /// Adds a single-signature point into this point, in place.
    fn add_assign(&mut self, other: &Sig)
        ensures
            final(self).model() == Self::spec_add(old(self).model(), other.model()),
    ;

    /// Adds another aggregate point into this point, in place.
    fn add_assign_aggregate(&mut self, other: &Self)
        ensures
            final(self).model() == Self::spec_add(old(self).model(), other.model()),
    ;

    /// The point's canonical 96-byte encoding.
    fn serialize(&self) -> (r: [u8; SIGNATURE_BYTES_LEN])
        ensures
            r@ == self.model(),
    ;

    /// Decodes a canonical encoding; rejects anything else, with a length
    /// error when the length is off and a point error otherwise.
    fn deserialize(bytes: &[u8]) -> (r: Result<Self, Error>)
        ensures
            r is Ok <==> Self::spec_valid(bytes@),
            r matches Ok(p) ==> p.model() == bytes@,
            r matches Err(e) ==> e == (if bytes@.len() != SIGNATURE_BYTES_LEN {
                Error::InvalidByteLength { got: bytes@.len() as usize, expected: SIGNATURE_BYTES_LEN }
            } else {
                Error::InvalidPoint
            }),
    ;

    /// Single-message, many-keys verification.
    fn fast_aggregate_verify(&self, msg: Hash256, pubkeys: &[&PublicKey<Pub>]) -> (r: bool)
        ensures
            r == Self::spec_verify_one(self.model(), msg@, public_key_models(pubkeys@)),
    ;

    /// Many-messages, many-keys verification.
    fn aggregate_verify(&self, msgs: &[Hash256], pubkeys: &[&PublicKey<Pub>]) -> (r: bool)
        ensures
            r == Self::spec_verify_many(self.model(), hash_models(msgs@), public_key_models(pubkeys@)),
    ;
}

/// Zero or more signatures folded into one backend point. The state is either
/// empty (no signature was ever folded in) or a held point; the curve
/// identity held by [`AggregateSignature::zero`] is a real point and is not
/// empty.
#[derive(Debug, PartialEq)]
pub struct AggregateSignature<Pub, AggPub, Sig, AggSig> {
    point: Option<AggSig>,
    _phantom_pub: PhantomData<Pub>,
    _phantom_agg_pub: PhantomData<AggPub>,
    _phantom_sig: PhantomData<Sig>,
}

impl<Pub, AggPub, Sig, AggSig> View for AggregateSignature<Pub, AggPub, Sig, AggSig> where
    Pub: TPublicKey,
    AggPub: TAggregatePublicKey,
    Sig: TSignature<Pub>,
    AggSig: TAggregateSignature<Pub, AggPub, Sig>,
 {
    type V = Option<Seq<u8>>;

    /// `None` in the empty state, else the held point's canonical encoding.
    closed spec fn view(&self) -> Option<Seq<u8>> {
        match self.point {
            Option::None => Option::None,
            Option::Some(p) => Option::Some(p.model()),
        }
    }
}

/// The wire form of an aggregate state: the held point's encoding, or the
/// reserved all-zero pattern in the empty state.
pub open spec fn wire_bytes(state: Option<Seq<u8>>) -> Seq<u8> {
    match state {
        Option::None => none_signature_bytes(),
        Option::Some(p) => p,
    }
}

/// The state reached by folding an optional incoming point into a state:
/// nothing incoming changes nothing; folding into the empty state starts from
/// the identity point.
pub open spec fn spec_fold<Pub, AggPub, Sig, AggSig>(
    state: Option<Seq<u8>>,
    incoming: Option<Seq<u8>>,
) -> Option<Seq<u8>> where
    Pub: TPublicKey,
    AggPub: TAggregatePublicKey,
    Sig: TSignature<Pub>,
    AggSig: TAggregateSignature<Pub, AggPub, Sig>,
{
    match incoming {
        Option::None => state,
        Option::Some(q) => match state {
            Option::None => Option::Some(AggSig::spec_add(AggSig::spec_zero(), q)),
            Option::Some(p) => Option::Some(AggSig::spec_add(p, q)),
        },
    }
}

impl<Pub, AggPub, Sig, AggSig> Clone for AggregateSignature<Pub, AggPub, Sig, AggSig> where
    Pub: TPublicKey,
    AggPub: TAggregatePublicKey,
    Sig: TSignature<Pub>,
    AggSig: TAggregateSignature<Pub, AggPub, Sig>,
 {
    /// Deep copy of the held point. The backend's own `Clone` carries no
    /// specification, so only the emptiness of the copy is promised here.
    fn clone(&self) -> (res: Self)
        ensures
            res@ is None <==> self@ is None,
    {
        AggregateSignature {
            point: self.point.clone(),
            _phantom_pub: PhantomData,
            _phantom_agg_pub: PhantomData,
            _phantom_sig: PhantomData,
        }
    }
}

impl<Pub, AggPub, Sig, AggSig> AggregateSignature<Pub, AggPub, Sig, AggSig> where
    Pub: TPublicKey,
    AggPub: TAggregatePublicKey,
    Sig: TSignature<Pub>,
    AggSig: TAggregateSignature<Pub, AggPub, Sig>,
 {
    /// An aggregate holding the curve identity point: not empty, absorbs
    /// every fold without effect on the sum.
    pub fn zero() -> (r: Self)
        ensures
            r@ == Option::Some(AggSig::spec_zero()),
    {
        AggregateSignature {
            point: Option::Some(AggSig::zero()),
            _phantom_pub: PhantomData,
            _phantom_agg_pub: PhantomData,
            _phantom_sig: PhantomData,
        }
    }

    /// An aggregate with no backing point: the state no signature was ever
    /// folded into.
    pub fn empty() -> (r: Self)
        ensures
            r@ is None,
    {
        AggregateSignature {
            point: Option::None,
            _phantom_pub: PhantomData,
            _phantom_agg_pub: PhantomData,
            _phantom_sig: PhantomData,
        }
    }

    /// True exactly in the empty state; an aggregate holding the identity
    /// point is not empty.
    pub fn is_empty(&self) -> (r: bool)
        ensures
            r == (self@ is None),
    {
        self.point.is_none()
    }

    /// The held backend point, for verification delegates.
    pub(crate) fn point(&self) -> (r: Option<&AggSig>)
        ensures
            match r {
                Option::None => self@ is None,
                Option::Some(p) => self@ == Option::Some(p.model()),
            },
    {
        self.point.as_ref()
    }

    /// Folds one signature into this aggregate. A signature holding no point
    /// changes nothing; otherwise an empty aggregate first transitions to the
    /// identity point, and the signature's point is added in place.
    pub fn add_assign(&mut self, other: &Signature<Pub, Sig>)
        ensures
            final(self)@ == spec_fold::<Pub, AggPub, Sig, AggSig>(old(self)@, other@),
    {
        match other.point() {
            Option::None => {},
            Option::Some(other_point) => {
                match self.point.take() {
                    Option::Some(mut self_point) => {
                        self_point.add_assign(other_point);
                        self.point = Option::Some(self_point);
                    },
                    Option::None => {
                        let mut self_point = AggSig::zero();
                        self_point.add_assign(other_point);
                        self.point = Option::Some(self_point);
                    },
                }
            },
        }
    }

    /// Folds another aggregate into this one, under the same transition rules
    /// as [`AggregateSignature::add_assign`]; folding an empty aggregate
    /// changes nothing.
    pub fn add_assign_aggregate(&mut self, other: &Self)
        ensures
            final(self)@ == spec_fold::<Pub, AggPub, Sig, AggSig>(old(self)@, other@),
    {
        match other.point() {
            Option::None => {},
            Option::Some(other_point) => {
                match self.point.take() {
                    Option::Some(mut self_point) => {
                        self_point.add_assign_aggregate(other_point);
                        self.point = Option::Some(self_point);
                    },
                    Option::None => {
                        let mut self_point = AggSig::zero();
                        self_point.add_assign_aggregate(other_point);
                        self.point = Option::Some(self_point);
                    },
                }
            },
        }
    }

    /// The canonical 96-byte wire form: the held point's encoding, or the
    /// reserved all-zero pattern in the empty state.
    pub fn serialize(&self) -> (r: [u8; SIGNATURE_BYTES_LEN])
        ensures
            r@ == wire_bytes(self@),
    {
        match &self.point {
            Option::Some(point) => point.serialize(),
            Option::None => {
                let r = [0u8; SIGNATURE_BYTES_LEN];
                proof {
                    assert(r@ =~= none_signature_bytes());
                }
                r
            },
        }
    }

    /// Decodes the canonical wire form: the reserved all-zero pattern yields
    /// the empty aggregate, any other valid point encoding yields that point,
    /// and anything else is rejected — with a length error when the input is
    /// not 96 bytes, and a point error otherwise.
    pub fn deserialize(bytes: &[u8]) -> (r: Result<Self, Error>)
        ensures
            r is Ok <==> (bytes@ == none_signature_bytes() || AggSig::spec_valid(bytes@)),
            r matches Ok(a) ==> a@ == (if bytes@ == none_signature_bytes() {
                Option::<Seq<u8>>::None
            } else {
                Option::Some(bytes@)
            }),
            r matches Err(e) ==> e == (if bytes@.len() != SIGNATURE_BYTES_LEN {
                Error::InvalidByteLength { got: bytes@.len() as usize, expected: SIGNATURE_BYTES_LEN }
            } else {
                Error::InvalidPoint
            }),
    {
        if is_none_signature(bytes) {
            Ok(AggregateSignature {
                point: Option::None,
                _phantom_pub: PhantomData,
                _phantom_agg_pub: PhantomData,
                _phantom_sig: PhantomData,
            })
        } else {
            proof {
                AggSig::lemma_valid_well_formed(bytes@);
            }
            match AggSig::deserialize(bytes) {
                Ok(point) => Ok(AggregateSignature {
                    point: Option::Some(point),
                    _phantom_pub: PhantomData,
                    _phantom_agg_pub: PhantomData,
                    _phantom_sig: PhantomData,
                }),
                Err(e) => Err(e),
            }
        }
    }
}

impl<Pub, AggPub, Sig, AggSig> AggregateSignature<Pub, AggPub, Sig, AggSig> where
    Pub: TPublicKey,
    AggPub: TAggregatePublicKey,
    Sig: TSignature<Pub>,
    AggSig: TAggregateSignature<Pub, AggPub, Sig>,
 {
    /// Verifies this aggregate against one message signed by every key.
    /// False — never an error — when no key is given or the aggregate is
    /// empty; otherwise exactly the backend's single-message verdict.
    pub fn fast_aggregate_verify(&self, msg: Hash256, pubkeys: &[&PublicKey<Pub>]) -> (r: bool)
        ensures
            r == (pubkeys@.len() > 0 && match self@ {
                Option::None => false,
                Option::Some(p) => AggSig::spec_verify_one(p, msg@, public_key_models(pubkeys@)),
            }),
    {
        if pubkeys.len() == 0 {
            return false;
        }
        match self.point.as_ref() {
            Option::Some(point) => point.fast_aggregate_verify(msg, pubkeys),
            Option::None => false,
        }
    }

    /// Verifies this aggregate against one distinct message per key. False —
    /// never an error — when no message is given, when the message and key
    /// counts differ, or when the aggregate is empty; otherwise exactly the
    /// backend's many-message verdict.
    pub fn aggregate_verify(&self, msgs: &[Hash256], pubkeys: &[&PublicKey<Pub>]) -> (r: bool)
        ensures
            r == (msgs@.len() > 0 && msgs@.len() == pubkeys@.len() && match self@ {
                Option::None => false,
                Option::Some(p) => AggSig::spec_verify_many(
                    p,
                    hash_models(msgs@),
                    public_key_models(pubkeys@),
                ),
            }),
    {
        if msgs.len() == 0 || msgs.len() != pubkeys.len() {
            return false;
        }
        match self.point.as_ref() {
            Option::Some(point) => point.aggregate_verify(msgs, pubkeys),
            Option::None => false,
        }
    }
}

/// Round-trip law: the canonical wire form of any aggregate decodes, and
/// decodes back to the very same state. The two clauses mirror the contract
/// of [`AggregateSignature::deserialize`] applied to the result of
/// [`AggregateSignature::serialize`]: the bytes are accepted, and the decoded
/// state equals the serialized one.
pub proof fn lemma_serialize_round_trip<Pub, AggPub, Sig, AggSig>(
    a: &AggregateSignature<Pub, AggPub, Sig, AggSig>,
) where
    Pub: TPublicKey,
    AggPub: TAggregatePublicKey,
    Sig: TSignature<Pub>,
    AggSig: TAggregateSignature<Pub, AggPub, Sig>,
    ensures
        wire_bytes(a@) == none_signature_bytes() || AggSig::spec_valid(wire_bytes(a@)),
        a@ == (if wire_bytes(a@) == none_signature_bytes() {
            Option::<Seq<u8>>::None
        } else {
            Option::Some(wire_bytes(a@))
        }),
{
    match a.point {
        Option::None => {},
        Option::Some(p) => {
            p.lemma_model_valid();
            AggSig::lemma_valid_well_formed(p.model());
        },
    }
}

/// Order-independence law: folding two signature points in either order,
/// starting from any state, reaches the same state — and so the same wire
/// bytes. Repeated swaps extend this to any permutation of any number of
/// folds.
pub proof fn lemma_fold_order_independent<Pub, AggPub, Sig, AggSig>(
    state: Option<Seq<u8>>,
    s1: Seq<u8>,
    s2: Seq<u8>,
) where
    Pub: TPublicKey,
    AggPub: TAggregatePublicKey,
    Sig: TSignature<Pub>,
    AggSig: TAggregateSignature<Pub, AggPub, Sig>,
    ensures
        spec_fold::<Pub, AggPub, Sig, AggSig>(
            spec_fold::<Pub, AggPub, Sig, AggSig>(state, Option::Some(s1)),
            Option::Some(s2),
        ) == spec_fold::<Pub, AggPub, Sig, AggSig>(
            spec_fold::<Pub, AggPub, Sig, AggSig>(state, Option::Some(s2)),
            Option::Some(s1),
        ),
{
    let base = match state {
        Option::None => AggSig::spec_zero(),
        Option::Some(p) => p,
    };
    AggSig::lemma_add_associative(base, s1, s2);
    AggSig::lemma_add_commutative(s1, s2);
    AggSig::lemma_add_associative(base, s2, s1);
}

/// Aggregation-associativity law: folding an aggregate built from `s2` and
/// `s3` into an aggregate built from `s1` reaches the same state as folding
/// `s1`, `s2`, `s3` one by one into an empty aggregate.
pub proof fn lemma_aggregate_fold_matches_single_folds<Pub, AggPub, Sig, AggSig>(
    s1: &Sig,
    s2: &Sig,
    s3: &Sig,
) where
    Pub: TPublicKey,
    AggPub: TAggregatePublicKey,
    Sig: TSignature<Pub>,
    AggSig: TAggregateSignature<Pub, AggPub, Sig>,
    ensures
        ({
            let first = spec_fold::<Pub, AggPub, Sig, AggSig>(
                Option::None,
                Option::Some(s1.model()),
            );
            let second = spec_fold::<Pub, AggPub, Sig, AggSig>(
                spec_fold::<Pub, AggPub, Sig, AggSig>(Option::None, Option::Some(s2.model())),
                Option::Some(s3.model()),
            );
            spec_fold::<Pub, AggPub, Sig, AggSig>(first, second) == spec_fold::<
                Pub,
                AggPub,
                Sig,
                AggSig,
            >(
                spec_fold::<Pub, AggPub, Sig, AggSig>(first, Option::Some(s2.model())),
                Option::Some(s3.model()),
            )
        }),
{
    AggSig::lemma_sig_model_valid(s2);
    AggSig::lemma_zero_is_identity(s2.model());
    let p1 = AggSig::spec_add(AggSig::spec_zero(), s1.model());
    AggSig::lemma_add_associative(p1, s2.model(), s3.model());
}

/// No-op-absorption law: folding a signature with no point, or an empty
/// aggregate, changes neither the state nor its wire bytes.
pub proof fn lemma_fold_absorbs_nothing<Pub, AggPub, Sig, AggSig>(state: Option<Seq<u8>>) where
    Pub: TPublicKey,
    AggPub: TAggregatePublicKey,
    Sig: TSignature<Pub>,
    AggSig: TAggregateSignature<Pub, AggPub, Sig>,
    ensures
        spec_fold::<Pub, AggPub, Sig, AggSig>(state, Option::None) == state,
        wire_bytes(spec_fold::<Pub, AggPub, Sig, AggSig>(state, Option::None)) == wire_bytes(
            state,
        ),
{
}

/// Zero-versus-empty law: folding a signature point into the empty aggregate
/// reaches exactly the state folding it into the identity-point aggregate
/// does, although the two starting states differ.
pub proof fn lemma_empty_fold_matches_zero_fold<Pub, AggPub, Sig, AggSig>(s: Seq<u8>) where
    Pub: TPublicKey,
    AggPub: TAggregatePublicKey,
    Sig: TSignature<Pub>,
    AggSig: TAggregateSignature<Pub, AggPub, Sig>,
    ensures
        spec_fold::<Pub, AggPub, Sig, AggSig>(Option::None, Option::Some(s)) == spec_fold::<
            Pub,
            AggPub,
            Sig,
            AggSig,
        >(Option::Some(AggSig::spec_zero()), Option::Some(s)),
{
}

/// True exactly when `bytes` is the reserved all-zero 96-byte pattern.
fn is_none_signature(bytes: &[u8]) -> (r: bool)
    ensures
        r == (bytes@ == none_signature_bytes()),
{
    if bytes.len() != SIGNATURE_BYTES_LEN {
        proof {
            assert(bytes@ != none_signature_bytes());
        }
        return false;
    }
    let mut i: usize = 0;
    while i < SIGNATURE_BYTES_LEN
        invariant
            bytes@.len() == SIGNATURE_BYTES_LEN,
            0 <= i <= SIGNATURE_BYTES_LEN,
            forall|j: int| 0 <= j < i ==> bytes@[j] == 0u8,
        decreases SIGNATURE_BYTES_LEN - i,
    {
        if bytes[i] != 0u8 {
            proof {
                assert(bytes@[i as int] != none_signature_bytes()[i as int]);
            }
            return false;
        }
        i += 1;
    }
    proof {
        assert(bytes@ =~= none_signature_bytes());
    }
    true
}

} // verus!
