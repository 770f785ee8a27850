use bls::aggregate_signature::AggregateSignature;
use bls::fake_crypto::{
    FakeAggregatePublicKeyPoint, FakeAggregateSignaturePoint, FakePublicKeyPoint,
    FakeSignaturePoint,
};
use bls::signature::Signature;
use bls::{Error, Hash256, PublicKey, SIGNATURE_BYTES_LEN};

type Agg = AggregateSignature<
    FakePublicKeyPoint,
    FakeAggregatePublicKeyPoint,
    FakeSignaturePoint,
    FakeAggregateSignaturePoint,
>;
type Sig = Signature<FakePublicKeyPoint, FakeSignaturePoint>;

fn key(value: u64) -> PublicKey<FakePublicKeyPoint> {
    PublicKey::from_point(FakePublicKeyPoint::new(value))
}

fn signed(key_value: u64, msg: &Hash256) -> Sig {
    Signature::from_point(FakeSignaturePoint::sign(&FakePublicKeyPoint::new(key_value), msg))
}

#[test]
fn empty_serializes_to_all_zero() {
    assert_eq!(Agg::empty().serialize(), [0u8; SIGNATURE_BYTES_LEN]);
}

#[test]
fn all_zero_deserializes_to_empty() {
    let a = Agg::deserialize(&[0u8; SIGNATURE_BYTES_LEN]).unwrap();
    assert!(a.is_empty());
}

#[test]
fn zero_is_not_empty() {
    assert!(!Agg::zero().is_empty());
}

#[test]
fn zero_holds_the_identity_point() {
    // Folding a signature into zero() changes the bytes exactly as folding it
    // into a fresh identity would: the identity contributes nothing.
    let msg = Hash256::from_bytes([7u8; 32]);
    let sig = signed(11, &msg);
    let mut from_zero = Agg::zero();
    from_zero.add_assign(&sig);
    let mut from_empty = Agg::empty();
    from_empty.add_assign(&sig);
    assert_eq!(from_zero.serialize(), from_empty.serialize());
}

#[test]
fn round_trip_preserves_observable_state() {
    let msg = Hash256::from_bytes([3u8; 32]);
    let mut a = Agg::empty();
    a.add_assign(&signed(1, &msg));
    a.add_assign(&signed(2, &msg));

    let b = Agg::deserialize(&a.serialize()).unwrap();
    assert_eq!(a.is_empty(), b.is_empty());
    assert_eq!(a.serialize(), b.serialize());
    let keys = [key(1), key(2)];
    let refs = [&keys[0], &keys[1]];
    assert_eq!(
        a.fast_aggregate_verify(msg, &refs),
        b.fast_aggregate_verify(msg, &refs)
    );
}

#[test]
fn round_trip_of_empty() {
    let b = Agg::deserialize(&Agg::empty().serialize()).unwrap();
    assert!(b.is_empty());
}

#[test]
fn aggregation_is_order_independent() {
    let msg = Hash256::from_bytes([9u8; 32]);
    let sigs = [signed(1, &msg), signed(2, &msg), signed(3, &msg)];
    let orders: [[usize; 3]; 6] =
        [[0, 1, 2], [0, 2, 1], [1, 0, 2], [1, 2, 0], [2, 0, 1], [2, 1, 0]];

    let mut reference = Agg::empty();
    reference.add_assign(&sigs[0]);
    reference.add_assign(&sigs[1]);
    reference.add_assign(&sigs[2]);

    let keys = [key(1), key(2), key(3)];
    let refs = [&keys[0], &keys[1], &keys[2]];
    assert!(reference.fast_aggregate_verify(msg, &refs));

    for order in orders {
        let mut a = Agg::empty();
        for i in order {
            a.add_assign(&sigs[i]);
        }
        assert_eq!(a.serialize(), reference.serialize());
        assert!(a.fast_aggregate_verify(msg, &refs));
    }
}

#[test]
fn aggregating_aggregates_matches_single_folds() {
    let msg = Hash256::from_bytes([5u8; 32]);
    let sigs = [signed(4, &msg), signed(5, &msg), signed(6, &msg)];

    let mut one_by_one = Agg::empty();
    for s in &sigs {
        one_by_one.add_assign(s);
    }

    let mut left = Agg::empty();
    left.add_assign(&sigs[0]);
    let mut right = Agg::empty();
    right.add_assign(&sigs[1]);
    right.add_assign(&sigs[2]);
    left.add_assign_aggregate(&right);

    assert_eq!(left.serialize(), one_by_one.serialize());
}

#[test]
fn folding_nothing_changes_nothing() {
    let msg = Hash256::from_bytes([2u8; 32]);
    let mut a = Agg::empty();
    a.add_assign(&signed(8, &msg));
    let before = a.serialize();

    a.add_assign(&Sig::empty());
    assert_eq!(a.serialize(), before);
    a.add_assign_aggregate(&Agg::empty());
    assert_eq!(a.serialize(), before);

    let mut e = Agg::empty();
    e.add_assign(&Sig::empty());
    assert!(e.is_empty());
    e.add_assign_aggregate(&Agg::empty());
    assert!(e.is_empty());
}

#[test]
fn verify_is_false_without_keys() {
    let msg = Hash256::from_bytes([1u8; 32]);
    let mut a = Agg::empty();
    a.add_assign(&signed(1, &msg));
    assert!(!a.fast_aggregate_verify(msg, &[]));
    assert!(!Agg::zero().fast_aggregate_verify(msg, &[]));
}

#[test]
fn verify_is_false_on_empty_aggregate() {
    let msg = Hash256::from_bytes([1u8; 32]);
    let k = key(1);
    assert!(!Agg::empty().fast_aggregate_verify(msg, &[&k]));
}

#[test]
fn verify_is_false_on_wrong_keys() {
    let msg = Hash256::from_bytes([1u8; 32]);
    let mut a = Agg::empty();
    a.add_assign(&signed(1, &msg));
    a.add_assign(&signed(2, &msg));
    a.add_assign(&signed(3, &msg));
    let keys = [key(1), key(2)];
    let refs = [&keys[0], &keys[1]];
    assert!(!a.fast_aggregate_verify(msg, &refs));
}

#[test]
fn aggregate_verify_accepts_distinct_messages() {
    let m1 = Hash256::from_bytes([1u8; 32]);
    let m2 = Hash256::from_bytes([2u8; 32]);
    let mut a = Agg::empty();
    a.add_assign(&signed(10, &m1));
    a.add_assign(&signed(20, &m2));
    let keys = [key(10), key(20)];
    let refs = [&keys[0], &keys[1]];
    assert!(a.aggregate_verify(&[m1, m2], &refs));
}

#[test]
fn aggregate_verify_is_false_on_length_mismatch() {
    let m1 = Hash256::from_bytes([1u8; 32]);
    let mut a = Agg::empty();
    a.add_assign(&signed(1, &m1));
    let keys = [key(1), key(2)];
    let refs = [&keys[0], &keys[1]];
    assert!(!a.aggregate_verify(&[m1], &refs));
}

#[test]
fn aggregate_verify_is_false_without_messages() {
    let mut a = Agg::empty();
    a.add_assign(&signed(1, &Hash256::from_bytes([1u8; 32])));
    assert!(!a.aggregate_verify(&[], &[]));
}

#[test]
fn deserialize_rejects_wrong_lengths() {
    assert_eq!(
        Agg::deserialize(&[0u8; 95]),
        Err(Error::InvalidByteLength { got: 95, expected: 96 })
    );
    assert_eq!(
        Agg::deserialize(&[0u8; 97]),
        Err(Error::InvalidByteLength { got: 97, expected: 96 })
    );
}

#[test]
fn deserialize_rejects_invalid_points() {
    // Right length, but not a canonical point encoding of the backend.
    assert_eq!(Agg::deserialize(&[1u8; 96]), Err(Error::InvalidPoint));
    let mut bytes = [0u8; 96];
    bytes[0] = 0xc0;
    bytes[50] = 1;
    assert_eq!(Agg::deserialize(&bytes), Err(Error::InvalidPoint));
}

#[test]
fn deserialize_accepts_canonical_points() {
    let mut a = Agg::zero();
    a.add_assign(&signed(42, &Hash256::from_bytes([0u8; 32])));
    let bytes = a.serialize();
    let b = Agg::deserialize(&bytes).unwrap();
    assert!(!b.is_empty());
    assert_eq!(b.serialize(), bytes);
}

#[test]
fn clone_preserves_wire_form() {
    let mut a = Agg::empty();
    a.add_assign(&signed(6, &Hash256::from_bytes([4u8; 32])));
    let b = a.clone();
    assert_eq!(a.serialize(), b.serialize());
    assert!(Agg::empty().clone().is_empty());
}
