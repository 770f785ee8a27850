//! A deterministic arithmetic stand-in backend: points are 64-bit residues,
//! point addition is addition modulo 2^64, and a signature over a digest is
//! the key's value shifted by the digest's leading word. No cryptography —
//! the backend exists so the wrappers can be exercised end to end, and it
//! discharges every algebraic obligation of the capability traits.

use vstd::prelude::*;
use vstd::arithmetic::div_mod::{lemma_add_mod_noop, lemma_small_mod};
use crate::aggregate_public_key::TAggregatePublicKey;
use crate::aggregate_signature::TAggregateSignature;
use crate::public_key::{PublicKey, TPublicKey, public_key_models};
use crate::signature::TSignature;
use crate::{Error, Hash256, SIGNATURE_BYTES_LEN, hash_models, none_signature_bytes};

verus! {

/// One more than the largest 64-bit value.
pub open spec fn word_modulus() -> int {
    0x1_0000_0000_0000_0000
}

/// Addition modulo 2^64.
pub open spec fn wrap_add(a: u64, b: u64) -> u64 {
    ((a + b) % word_modulus()) as u64
}

/// The big-endian bytes of a 64-bit value.
pub open spec fn be_bytes_u64(v: u64) -> Seq<u8> {
    seq![
        (v >> 56) as u8,
        (v >> 48) as u8,
        (v >> 40) as u8,
        (v >> 32) as u8,
        (v >> 24) as u8,
        (v >> 16) as u8,
        (v >> 8) as u8,
        v as u8,
    ]
}

/// The 64-bit value read big-endian from eight bytes at `off`.
pub open spec fn be_word(b: Seq<u8>, off: int) -> u64 {
    ((b[off] as u64) << 56) | ((b[off + 1] as u64) << 48) | ((b[off + 2] as u64) << 40) | ((b[off
        + 3] as u64) << 32) | ((b[off + 4] as u64) << 24) | ((b[off + 5] as u64) << 16) | ((b[off
        + 6] as u64) << 8) | (b[off + 7] as u64)
}

/// The fake canonical point encoding: a marker byte, 87 zero bytes, then the
/// residue big-endian. The marker keeps every encoding apart from the
/// reserved all-zero pattern.
pub open spec fn encode_fake(v: u64) -> Seq<u8> {
    Seq::new(
        SIGNATURE_BYTES_LEN as nat,
        |i: int| if i == 0 {
            0xc0u8
        } else if i < 88 {
            0u8
        } else {
            be_bytes_u64(v)[i - 88]
        },
    )
}

/// The fake signature value a key's holder produces over a digest: the key's
/// residue shifted by the digest's leading word.
pub open spec fn fake_signature_value(key: u64, msg: Seq<u8>) -> u64 {
    wrap_add(key, be_word(msg, 0))
}

/// The sum of the fake signature values all keys produce over one digest.
pub open spec fn sum_one_message(keys: Seq<Seq<u8>>, msg: Seq<u8>) -> u64
    decreases keys.len(),
{
    if keys.len() == 0 {
        0u64
    } else {
        wrap_add(
            sum_one_message(keys.drop_last(), msg),
            fake_signature_value(be_word(keys.last(), 0), msg),
        )
    }
}

/// The sum of the fake signature values, one distinct digest per key.
pub open spec fn sum_many_messages(keys: Seq<Seq<u8>>, msgs: Seq<Seq<u8>>) -> u64
    decreases keys.len(),
{
    if keys.len() == 0 {
        0u64
    } else {
        wrap_add(
            sum_many_messages(keys.drop_last(), msgs.drop_last()),
            fake_signature_value(be_word(keys.last(), 0), msgs.last()),
        )
    }
}

/// Reading the word back out of its big-endian bytes recovers it.
proof fn lemma_word_of_be_bytes(v: u64)
    ensures
        be_word(be_bytes_u64(v), 0) == v,
{
    assert((((v >> 56) as u8 as u64) << 56) | (((v >> 48) as u8 as u64) << 48) | (((v
        >> 40) as u8 as u64) << 40) | (((v >> 32) as u8 as u64) << 32) | (((v
        >> 24) as u8 as u64) << 24) | (((v >> 16) as u8 as u64) << 16) | (((v
        >> 8) as u8 as u64) << 8) | ((v as u8) as u64) == v) by (bit_vector);
}

/// Re-encoding the word read from eight bytes recovers those bytes.
proof fn lemma_be_bytes_of_word(x0: u8, x1: u8, x2: u8, x3: u8, x4: u8, x5: u8, x6: u8, x7: u8)
    ensures
        be_bytes_u64(
            ((x0 as u64) << 56) | ((x1 as u64) << 48) | ((x2 as u64) << 40) | ((x3 as u64) << 32)
                | ((x4 as u64) << 24) | ((x5 as u64) << 16) | ((x6 as u64) << 8) | (x7 as u64),
        ) =~= seq![x0, x1, x2, x3, x4, x5, x6, x7],
{
    let w = ((x0 as u64) << 56) | ((x1 as u64) << 48) | ((x2 as u64) << 40) | ((x3 as u64) << 32)
        | ((x4 as u64) << 24) | ((x5 as u64) << 16) | ((x6 as u64) << 8) | (x7 as u64);
    assert((w >> 56) as u8 == x0 && (w >> 48) as u8 == x1 && (w >> 40) as u8 == x2 && (w
        >> 32) as u8 == x3 && (w >> 24) as u8 == x4 && (w >> 16) as u8 == x5 && (w >> 8) as u8
        == x6 && w as u8 == x7) by (bit_vector)
        requires
            w == ((x0 as u64) << 56) | ((x1 as u64) << 48) | ((x2 as u64) << 40) | ((x3
                as u64) << 32) | ((x4 as u64) << 24) | ((x5 as u64) << 16) | ((x6 as u64) << 8) | (
            x7 as u64),
    ;
}

/// Decoding an encoded residue recovers the residue.
proof fn lemma_decode_encode(v: u64)
    ensures
        be_word(encode_fake(v), 88) == v,
{
    assert(encode_fake(v).subrange(88, 96) =~= be_bytes_u64(v));
    lemma_word_of_be_bytes(v);
}

/// A structurally valid encoding is exactly the encoding of its residue.
proof fn lemma_encode_decode(b: Seq<u8>)
    requires
        b.len() == SIGNATURE_BYTES_LEN,
        b[0] == 0xc0u8,
        forall|i: int| 1 <= i < 88 ==> b[i] == 0u8,
    ensures
        encode_fake(be_word(b, 88)) == b,
{
    lemma_be_bytes_of_word(b[88], b[89], b[90], b[91], b[92], b[93], b[94], b[95]);
    assert(encode_fake(be_word(b, 88)) =~= b);
}

/// Addition modulo 2^64 is associative.
proof fn lemma_wrap_add_associative(a: u64, b: u64, c: u64)
    ensures
        wrap_add(wrap_add(a, b), c) == wrap_add(a, wrap_add(b, c)),
{
    let m = word_modulus();
    lemma_small_mod(c as nat, m as nat);
    lemma_add_mod_noop(a + b, c as int, m);
    lemma_small_mod(a as nat, m as nat);
    lemma_add_mod_noop(a as int, b + c, m);
}

/// Addition modulo 2^64 absorbs zero.
proof fn lemma_wrap_add_zero(a: u64)
    ensures
        wrap_add(0u64, a) == a,
{
    lemma_small_mod(a as nat, word_modulus() as nat);
}

/// Addition modulo 2^64, executably.
fn wrap_add_exec(a: u64, b: u64) -> (r: u64)
    ensures
        r == wrap_add(a, b),
{
    let s: u128 = a as u128 + b as u128;
    (s % 0x1_0000_0000_0000_0000u128) as u64
}

/// A fake public-key point: a 64-bit residue, encoded big-endian.
#[derive(Clone, Copy, PartialEq, Eq, Debug)]
pub struct FakePublicKeyPoint {
    value: u64,
}

impl TPublicKey for FakePublicKeyPoint {
    closed spec fn model(&self) -> Seq<u8> {
        be_bytes_u64(self.value)
    }
}

impl FakePublicKeyPoint {
    /// A public-key point with the given residue.
    pub fn new(value: u64) -> (r: Self)
        ensures
            r.model() == be_bytes_u64(value),
    {
        FakePublicKeyPoint { value }
    }
}

/// A fake aggregate public-key point; never inspected by the wrappers.
#[derive(Clone, Copy, PartialEq, Eq, Debug)]
pub struct FakeAggregatePublicKeyPoint {
    value: u64,
}

impl TAggregatePublicKey for FakeAggregatePublicKeyPoint {
    closed spec fn model(&self) -> Seq<u8> {
        be_bytes_u64(self.value)
    }
}

/// A fake single-signature point: a 64-bit residue with the fake encoding.
#[derive(Clone, Copy, PartialEq, Eq, Debug)]
pub struct FakeSignaturePoint {
    value: u64,
}

impl TSignature<FakePublicKeyPoint> for FakeSignaturePoint {
    closed spec fn model(&self) -> Seq<u8> {
        encode_fake(self.value)
    }
}

impl FakeSignaturePoint {
    /// A signature point with the given residue.
    pub fn new(value: u64) -> (r: Self)
        ensures
            r.model() == encode_fake(value),
    {
        FakeSignaturePoint { value }
    }

    /// The signature the key's holder produces over a digest.
    pub fn sign(key: &FakePublicKeyPoint, msg: &Hash256) -> (r: Self)
        ensures
            r.model() == encode_fake(fake_signature_value(be_word(key.model(), 0), msg@)),
    {
        let mb = msg.to_bytes();
        let word = ((mb[0] as u64) << 56) | ((mb[1] as u64) << 48) | ((mb[2] as u64) << 40) | ((
        mb[3] as u64) << 32) | ((mb[4] as u64) << 24) | ((mb[5] as u64) << 16) | ((mb[6]
            as u64) << 8) | (mb[7] as u64);
        proof {
            lemma_word_of_be_bytes(key.value);
        }
        FakeSignaturePoint { value: wrap_add_exec(key.value, word) }
    }
}

/// A fake aggregate-signature point: the modular sum of the folded residues.
#[derive(Clone, Copy, PartialEq, Eq, Debug)]
pub struct FakeAggregateSignaturePoint {
    value: u64,
}

impl TAggregateSignature<
    FakePublicKeyPoint,
    FakeAggregatePublicKeyPoint,
    FakeSignaturePoint,
> for FakeAggregateSignaturePoint {
    closed spec fn model(&self) -> Seq<u8> {
        encode_fake(self.value)
    }

    open spec fn spec_zero() -> Seq<u8> {
        encode_fake(0u64)
    }

    open spec fn spec_add(a: Seq<u8>, b: Seq<u8>) -> Seq<u8> {
        encode_fake(wrap_add(be_word(a, 88), be_word(b, 88)))
    }

    open spec fn spec_valid(b: Seq<u8>) -> bool {
        &&& b.len() == SIGNATURE_BYTES_LEN
        &&& b[0] == 0xc0u8
        &&& forall|i: int| 1 <= i < 88 ==> b[i] == 0u8
    }

    open spec fn spec_verify_one(point: Seq<u8>, msg: Seq<u8>, keys: Seq<Seq<u8>>) -> bool {
        point == encode_fake(sum_one_message(keys, msg))
    }

    open spec fn spec_verify_many(point: Seq<u8>, msgs: Seq<Seq<u8>>, keys: Seq<Seq<u8>>) -> bool {
        msgs.len() == keys.len() && point == encode_fake(sum_many_messages(keys, msgs))
    }

    proof fn lemma_model_valid(&self) {
    }

    proof fn lemma_valid_well_formed(b: Seq<u8>) {
        if Self::spec_valid(b) {
            assert(b[0] != none_signature_bytes()[0]);
        }
    }

    proof fn lemma_sig_model_valid(s: &FakeSignaturePoint) {
    }

    proof fn lemma_add_commutative(a: Seq<u8>, b: Seq<u8>) {
    }

    proof fn lemma_add_associative(a: Seq<u8>, b: Seq<u8>, c: Seq<u8>) {
        let x = be_word(a, 88);
        let y = be_word(b, 88);
        let z = be_word(c, 88);
        lemma_decode_encode(wrap_add(x, y));
        lemma_decode_encode(wrap_add(y, z));
        lemma_wrap_add_associative(x, y, z);
    }

    proof fn lemma_zero_is_identity(b: Seq<u8>) {
        lemma_decode_encode(0u64);
        lemma_wrap_add_zero(be_word(b, 88));
        lemma_encode_decode(b);
    }

    fn zero() -> (r: Self) {
        FakeAggregateSignaturePoint { value: 0 }
    }

    fn add_assign(&mut self, other: &FakeSignaturePoint) {
        proof {
            lemma_decode_encode(self.value);
            lemma_decode_encode(other.value);
        }
        self.value = wrap_add_exec(self.value, other.value);
    }

    fn add_assign_aggregate(&mut self, other: &Self) {
        proof {
            lemma_decode_encode(self.value);
            lemma_decode_encode(other.value);
        }
        self.value = wrap_add_exec(self.value, other.value);
    }

    fn serialize(&self) -> (r: [u8; SIGNATURE_BYTES_LEN]) {
        let v = self.value;
        let mut out = [0u8; SIGNATURE_BYTES_LEN];
        out[0] = 0xc0;
        out[88] = (v >> 56) as u8;
        out[89] = (v >> 48) as u8;
        out[90] = (v >> 40) as u8;
        out[91] = (v >> 32) as u8;
        out[92] = (v >> 24) as u8;
        out[93] = (v >> 16) as u8;
        out[94] = (v >> 8) as u8;
        out[95] = v as u8;
        proof {
            assert(out@ =~= encode_fake(v));
        }
        out
    }

    fn deserialize(bytes: &[u8]) -> (r: Result<Self, Error>) {
        if bytes.len() != SIGNATURE_BYTES_LEN {
            return Err(
                Error::InvalidByteLength { got: bytes.len(), expected: SIGNATURE_BYTES_LEN },
            );
        }
        if bytes[0] != 0xc0 {
            return Err(Error::InvalidPoint);
        }
        let mut i: usize = 1;
        while i < 88
            invariant
                bytes@.len() == SIGNATURE_BYTES_LEN,
                bytes@[0] == 0xc0u8,
                1 <= i <= 88,
                forall|j: int| 1 <= j < i ==> bytes@[j] == 0u8,
            decreases 88 - i,
        {
            if bytes[i] != 0 {
                return Err(Error::InvalidPoint);
            }
            i += 1;
        }
        let value = ((bytes[88] as u64) << 56) | ((bytes[89] as u64) << 48) | ((bytes[90]
            as u64) << 40) | ((bytes[91] as u64) << 32) | ((bytes[92] as u64) << 24) | ((bytes[93]
            as u64) << 16) | ((bytes[94] as u64) << 8) | (bytes[95] as u64);
        proof {
            lemma_encode_decode(bytes@);
        }
        Ok(FakeAggregateSignaturePoint { value })
    }

    fn fast_aggregate_verify(
        &self,
        msg: Hash256,
        pubkeys: &[&PublicKey<FakePublicKeyPoint>],
    ) -> (r: bool) {
        let mb = msg.to_bytes();
        let word = ((mb[0] as u64) << 56) | ((mb[1] as u64) << 48) | ((mb[2] as u64) << 40) | ((
        mb[3] as u64) << 32) | ((mb[4] as u64) << 24) | ((mb[5] as u64) << 16) | ((mb[6]
            as u64) << 8) | (mb[7] as u64);
        let mut sum: u64 = 0;
        let mut i: usize = 0;
        let ghost keys = public_key_models(pubkeys@);
        while i < pubkeys.len()
            invariant
                0 <= i <= pubkeys@.len(),
                keys == public_key_models(pubkeys@),
                word == be_word(msg@, 0),
                sum == sum_one_message(keys.take(i as int), msg@),
            decreases pubkeys@.len() - i,
        {
            let key = pubkeys[i].point();
            proof {
                lemma_word_of_be_bytes(key.value);
                assert(keys.take(i + 1).drop_last() =~= keys.take(i as int));
                assert(keys.take(i + 1).last() == keys[i as int]);
            }
            sum = wrap_add_exec(sum, wrap_add_exec(key.value, word));
            i += 1;
        }
        proof {
            assert(keys.take(keys.len() as int) =~= keys);
        }
        let expected = sum;
        proof {
            if self.value == expected {
                assert(Self::spec_verify_one(self.model(), msg@, keys));
            } else {
                lemma_decode_encode(self.value);
                lemma_decode_encode(expected);
            }
        }
        self.value == expected
    }

    fn aggregate_verify(
        &self,
        msgs: &[Hash256],
        pubkeys: &[&PublicKey<FakePublicKeyPoint>],
    ) -> (r: bool) {
        if msgs.len() != pubkeys.len() {
            return false;
        }
        let mut sum: u64 = 0;
        let mut i: usize = 0;
        let ghost keys = public_key_models(pubkeys@);
        let ghost digests = hash_models(msgs@);
        while i < pubkeys.len()
            invariant
                0 <= i <= pubkeys@.len(),
                msgs@.len() == pubkeys@.len(),
                keys == public_key_models(pubkeys@),
                digests == hash_models(msgs@),
                sum == sum_many_messages(keys.take(i as int), digests.take(i as int)),
            decreases pubkeys@.len() - i,
        {
            let key = pubkeys[i].point();
            let mb = msgs[i].to_bytes();
            let word = ((mb[0] as u64) << 56) | ((mb[1] as u64) << 48) | ((mb[2] as u64) << 40)
                | ((mb[3] as u64) << 32) | ((mb[4] as u64) << 24) | ((mb[5] as u64) << 16) | ((
            mb[6] as u64) << 8) | (mb[7] as u64);
            proof {
                lemma_word_of_be_bytes(key.value);
                assert(keys.take(i + 1).drop_last() =~= keys.take(i as int));
                assert(digests.take(i + 1).drop_last() =~= digests.take(i as int));
                assert(keys.take(i + 1).last() == keys[i as int]);
                assert(digests.take(i + 1).last() == digests[i as int]);
            }
            sum = wrap_add_exec(sum, wrap_add_exec(key.value, word));
            i += 1;
        }
        proof {
            assert(keys.take(keys.len() as int) =~= keys);
            assert(digests.take(digests.len() as int) =~= digests);
        }
        let expected = sum;
        proof {
            if self.value == expected {
                assert(Self::spec_verify_many(self.model(), digests, keys));
            } else {
                lemma_decode_encode(self.value);
                lemma_decode_encode(expected);
            }
        }
        self.value == expected
    }
}

} // verus!
