use bls::aggregate_signature::AggregateSignature;
use bls::fake_crypto::{
    FakeAggregatePublicKeyPoint, FakeAggregateSignaturePoint, FakePublicKeyPoint,
    FakeSignaturePoint,
};
use bls::signature::Signature;
use bls::{Error, Hash256};

type Agg = AggregateSignature<
    FakePublicKeyPoint,
    FakeAggregatePublicKeyPoint,
    FakeSignaturePoint,
    FakeAggregateSignaturePoint,
>;

fn sample() -> Agg {
    let mut a = Agg::empty();
    let key = FakePublicKeyPoint::new(0x1122334455667788);
    let msg = Hash256::from_bytes([0u8; 32]);
    a.add_assign(&Signature::from_point(FakeSignaturePoint::sign(&key, &msg)));
    a
}

#[test]
fn hex_of_empty_is_all_zero_digits() {
    let expected = format!("0x{}", "00".repeat(96));
    assert_eq!(Agg::empty().to_hex_string(), expected);
    assert_eq!(Agg::empty().to_hex_bytes(), expected.as_bytes());
}

#[test]
fn hex_is_lowercase_and_prefixed() {
    let text = sample().to_hex_string();
    assert_eq!(text.len(), 194);
    assert!(text.starts_with("0xc0"));
    assert!(text[2..].chars().all(|c| c.is_ascii_hexdigit() && !c.is_ascii_uppercase()));
    assert!(text.contains("1122334455667788"));
}

#[test]
fn hex_round_trip() {
    let a = sample();
    let text = a.to_hex_string();
    let b = Agg::from_hex_string(&text).unwrap();
    assert_eq!(a.serialize(), b.serialize());
    let c = Agg::from_hex_bytes(&a.to_hex_bytes()).unwrap();
    assert_eq!(a.serialize(), c.serialize());
}

#[test]
fn hex_round_trip_of_empty() {
    let text = Agg::empty().to_hex_string();
    assert!(Agg::from_hex_string(&text).unwrap().is_empty());
}

#[test]
fn hex_accepts_uppercase_digits() {
    let mut upper = String::from("0x");
    upper.push_str("C0");
    upper.push_str(&"00".repeat(95));
    let a = Agg::from_hex_string(&upper).unwrap();
    assert_eq!(a.serialize(), Agg::zero().serialize());
}

#[test]
fn hex_rejects_missing_prefix() {
    let bare = "00".repeat(96);
    assert_eq!(Agg::from_hex_string(&bare), Err(Error::MissingHexPrefix));
    assert_eq!(Agg::from_hex_string(""), Err(Error::MissingHexPrefix));
    assert_eq!(Agg::from_hex_string("1x00"), Err(Error::MissingHexPrefix));
}

#[test]
fn hex_rejects_bad_digits() {
    let text = format!("0x{}zz", "00".repeat(95));
    assert_eq!(Agg::from_hex_string(&text), Err(Error::InvalidHexCharacter));
}

#[test]
fn hex_rejects_dangling_half_byte() {
    let text = format!("0x{}0", "00".repeat(96));
    assert_eq!(Agg::from_hex_string(&text), Err(Error::OddHexLength));
}

#[test]
fn hex_rejects_wrong_decoded_length() {
    let text = format!("0x{}", "00".repeat(95));
    assert_eq!(
        Agg::from_hex_string(&text),
        Err(Error::InvalidByteLength { got: 95, expected: 96 })
    );
}

#[test]
fn hex_rejects_invalid_point() {
    let text = format!("0x{}", "11".repeat(96));
    assert_eq!(Agg::from_hex_string(&text), Err(Error::InvalidPoint));
}

#[test]
fn tree_hash_root_of_empty_matches_padded_zero_chunks() {
    // 96 zero bytes hash as three zero leaf chunks padded to four: the root
    // is the well-known depth-two zero subtree digest.
    let expected: [u8; 32] = [
        0xdb, 0x56, 0x11, 0x4e, 0x00, 0xfd, 0xd4, 0xc1, 0xf8, 0x5c, 0x89, 0x2b, 0xf3, 0x5a,
        0xc9, 0xa8, 0x92, 0x89, 0xaa, 0xec, 0xb1, 0xeb, 0xd0, 0xa9, 0x6c, 0xde, 0x60, 0x6a,
        0x74, 0x8b, 0x5d, 0x71,
    ];
    assert_eq!(Agg::empty().tree_hash_root().to_bytes(), expected);
}

#[test]
fn tree_hash_root_depends_on_the_point() {
    let empty_root = Agg::empty().tree_hash_root();
    let zero_root = Agg::zero().tree_hash_root();
    let sample_root = sample().tree_hash_root();
    assert_ne!(empty_root, zero_root);
    assert_ne!(zero_root, sample_root);
    // The root is a digest, not the leading bytes of the input.
    assert_ne!(zero_root.to_bytes()[0], 0xc0);
}

#[test]
fn hash256_round_trips_bytes() {
    let h = Hash256::from_bytes([9u8; 32]);
    assert_eq!(h.to_bytes(), [9u8; 32]);
    assert_eq!(Hash256::zero(), Hash256::from_bytes([0u8; 32]));
}
