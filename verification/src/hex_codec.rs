//! The hex text form of the canonical encoding: `0x` followed by two
//! lowercase digits per byte. Encoding and decoding are defined here on ASCII
//! bytes; a `String` form is offered on top.

use vstd::prelude::*;
use vstd::string::StringSliceAdditionalSpecFns;
use crate::aggregate_public_key::TAggregatePublicKey;
use crate::aggregate_signature::{AggregateSignature, TAggregateSignature, wire_bytes};
use crate::public_key::TPublicKey;
use crate::signature::TSignature;
use crate::{Error, SIGNATURE_BYTES_LEN, none_signature_bytes};

verus! {

/// The lowercase ASCII hex digit of a nibble value.
pub open spec fn hex_digit(n: u8) -> u8
    recommends
        n < 16,
{
    if n < 10 {
        (0x30 + n) as u8
    } else {
        (0x57 + n) as u8
    }
}

/// The nibble value of an ASCII hex digit, or 16 for any other byte.
pub open spec fn hex_value(c: u8) -> u8 {
    if 0x30 <= c && c <= 0x39 {
        (c - 0x30) as u8
    } else if 0x61 <= c && c <= 0x66 {
        ((c - 0x61) + 10) as u8
    } else if 0x41 <= c && c <= 0x46 {
        ((c - 0x41) + 10) as u8
    } else {
        16
    }
}

/// The hex encoding of bytes: two lowercase digits per byte, high nibble
/// first.
pub open spec fn hex_encoding(b: Seq<u8>) -> Seq<u8> {
    Seq::new(
        b.len() * 2,
        |i: int| if i % 2 == 0 {
            hex_digit(b[i / 2] / 16)
        } else {
            hex_digit(b[i / 2] % 16)
        },
    )
}

/// The `0x`-prefixed hex text of bytes, as ASCII.
pub open spec fn prefixed_hex(b: Seq<u8>) -> Seq<u8> {
    seq![0x30u8, 0x78u8] + hex_encoding(b)
}

/// Whether every byte of `h` is an ASCII hex digit.
pub open spec fn all_hex_digits(h: Seq<u8>) -> bool {
    forall|i: int| 0 <= i < h.len() ==> hex_value(#[trigger] h[i]) < 16
}

/// Whether `h` is well-formed `0x`-prefixed hex text.
pub open spec fn prefixed_hex_ok(h: Seq<u8>) -> bool {
    &&& h.len() >= 2
    &&& h[0] == 0x30u8
    &&& h[1] == 0x78u8
    &&& (h.len() - 2) % 2 == 0
    &&& all_hex_digits(h.skip(2))
}

/// The bytes encoded by hex text without its prefix, one byte per digit pair.
pub open spec fn hex_decoding(h: Seq<u8>) -> Seq<u8> {
    Seq::new(h.len() / 2, |i: int| (hex_value(h[2 * i]) * 16 + hex_value(h[2 * i + 1])) as u8)
}

/// The bytes encoded by well-formed `0x`-prefixed hex text.
pub open spec fn prefixed_hex_bytes(h: Seq<u8>) -> Seq<u8> {
    hex_decoding(h.skip(2))
}

/// The first error a left-to-right read of malformed hex text reports.
pub open spec fn prefixed_hex_error(h: Seq<u8>) -> Error {
    if !(h.len() >= 2 && h[0] == 0x30u8 && h[1] == 0x78u8) {
        Error::MissingHexPrefix
    } else if !all_hex_digits(h.skip(2)) {
        Error::InvalidHexCharacter
    } else {
        Error::OddHexLength
    }
}

/// The lowercase ASCII hex digit of a nibble value.
fn hex_digit_of(n: u8) -> (r: u8)
    requires
        n < 16,
    ensures
        r == hex_digit(n),
{
    if n < 10 {
        0x30 + n
    } else {
        0x57 + n
    }
}

/// The nibble value of an ASCII hex digit, or 16 for any other byte.
fn hex_value_of(c: u8) -> (r: u8)
    ensures
        r == hex_value(c),
{
    if 0x30 <= c && c <= 0x39 {
        c - 0x30
    } else if 0x61 <= c && c <= 0x66 {
        (c - 0x61) + 10
    } else if 0x41 <= c && c <= 0x46 {
        (c - 0x41) + 10
    } else {
        16
    }
}

/// Encodes bytes as `0x`-prefixed lowercase hex text.
pub fn encode_prefixed(bytes: &[u8]) -> (r: Vec<u8>)
    requires
        bytes@.len() * 2 + 2 <= usize::MAX,
    ensures
        r@ == prefixed_hex(bytes@),
{
    let mut out: Vec<u8> = Vec::new();
    out.push(0x30);
    out.push(0x78);
    let mut i: usize = 0;
    while i < bytes.len()
        invariant
            bytes@.len() * 2 + 2 <= usize::MAX,
            0 <= i <= bytes@.len(),
            out@ == prefixed_hex(bytes@.subrange(0, i as int)),
        decreases bytes@.len() - i,
    {
        let b = bytes[i];
        out.push(hex_digit_of(b / 16));
        out.push(hex_digit_of(b % 16));
        i += 1;
        proof {
            assert(out@ =~= prefixed_hex(bytes@.subrange(0, i as int)));
        }
    }
    proof {
        assert(bytes@.subrange(0, bytes@.len() as int) =~= bytes@);
    }
    out
}

/// Decodes `0x`-prefixed hex text, rejecting a missing prefix, a byte that is
/// no hex digit, and a dangling half byte — in that order of report.
pub fn decode_prefixed(h: &[u8]) -> (r: Result<Vec<u8>, Error>)
    ensures
        r is Ok <==> prefixed_hex_ok(h@),
        r matches Ok(b) ==> b@ == prefixed_hex_bytes(h@),
        r matches Err(e) ==> e == prefixed_hex_error(h@),
{
    if h.len() < 2 || h[0] != 0x30 || h[1] != 0x78 {
        return Err(Error::MissingHexPrefix);
    }
    let mut i: usize = 2;
    while i < h.len()
        invariant
            h@.len() >= 2,
            h@[0] == 0x30u8,
            h@[1] == 0x78u8,
            2 <= i <= h@.len(),
            forall|j: int| 2 <= j < i ==> hex_value(#[trigger] h@[j]) < 16,
        decreases h@.len() - i,
    {
        if hex_value_of(h[i]) >= 16 {
            proof {
                assert(!all_hex_digits(h@.skip(2))) by {
                    assert(hex_value(h@.skip(2)[i - 2]) >= 16);
                }
            }
            return Err(Error::InvalidHexCharacter);
        }
        i += 1;
    }
    proof {
        assert(forall|j: int|
            0 <= j < h@.len() - 2 ==> hex_value(#[trigger] h@.skip(2)[j]) < 16);
    }
    if (h.len() - 2) % 2 != 0 {
        return Err(Error::OddHexLength);
    }
    let mut out: Vec<u8> = Vec::new();
    let mut i: usize = 2;
    while i < h.len()
        invariant
            prefixed_hex_ok(h@),
            2 <= i <= h@.len(),
            (i - 2) % 2 == 0,
            out@ == hex_decoding(h@.subrange(2, i as int)),
        decreases h@.len() - i,
    {
        let hi = hex_value_of(h[i]);
        let lo = hex_value_of(h[i + 1]);
        proof {
            assert(hex_value(h@.skip(2)[i - 2]) < 16);
            assert(hex_value(h@.skip(2)[i - 1]) < 16);
        }
        out.push(hi * 16 + lo);
        i += 2;
        proof {
            assert(out@ =~= hex_decoding(h@.subrange(2, i as int)));
        }
    }
    proof {
        assert(h@.subrange(2, h@.len() as int) =~= h@.skip(2));
    }
    Ok(out)
}

/// Hex round-trip law: encoding any bytes as `0x`-prefixed hex yields
/// well-formed hex text that decodes back to exactly those bytes.
pub proof fn lemma_hex_round_trip(b: Seq<u8>)
    ensures
        prefixed_hex_ok(prefixed_hex(b)),
        prefixed_hex_bytes(prefixed_hex(b)) == b,
{
    let h = prefixed_hex(b);
    assert forall|i: int| 0 <= i < h.skip(2).len() implies hex_value(
        #[trigger] h.skip(2)[i],
    ) < 16 by {
        assert(h.skip(2)[i] == hex_encoding(b)[i]);
    }
    assert forall|i: int| 0 <= i < b.len() implies prefixed_hex_bytes(h)[i] == b[i] by {
        let x = b[i];
        assert(h.skip(2)[2 * i] == hex_digit(x / 16));
        assert(h.skip(2)[2 * i + 1] == hex_digit(x % 16));
        assert(hex_value(hex_digit(x / 16)) == x / 16);
        assert(hex_value(hex_digit(x % 16)) == x % 16);
    }
    assert(prefixed_hex_bytes(h) =~= b);
}

/// Every byte of `0x`-prefixed hex text is ASCII.
proof fn lemma_prefixed_hex_ascii(b: Seq<u8>)
    ensures
        forall|i: int| 0 <= i < prefixed_hex(b).len() ==> #[trigger] prefixed_hex(b)[i] < 128,
{
}

/// Relies on `String::from_utf8`: ASCII bytes are valid UTF-8 and decode to
/// the string holding exactly those bytes, one character per byte.
#[verifier::external_body]
fn ascii_string(v: Vec<u8>) -> (r: String)
    requires
        forall|i: int| 0 <= i < v@.len() ==> #[trigger] v@[i] < 128,
    ensures
        r@.len() == v@.len(),
        forall|i: int| 0 <= i < v@.len() ==> r@[i] == (#[trigger] v@[i]) as char,
{
    String::from_utf8(v).unwrap_or_default()
}

impl<Pub, AggPub, Sig, AggSig> AggregateSignature<Pub, AggPub, Sig, AggSig> where
    Pub: TPublicKey,
    AggPub: TAggregatePublicKey,
    Sig: TSignature<Pub>,
    AggSig: TAggregateSignature<Pub, AggPub, Sig>,
 {
    /// The `0x`-prefixed lowercase hex text of the canonical wire form, as
    /// ASCII bytes.
    pub fn to_hex_bytes(&self) -> (r: Vec<u8>)
        ensures
            r@ == prefixed_hex(wire_bytes(self@)),
    {
        let bytes = self.serialize();
        encode_prefixed(bytes.as_slice())
    }

    /// The `0x`-prefixed lowercase hex text of the canonical wire form.
    pub fn to_hex_string(&self) -> (r: String)
        ensures
            r@ == prefixed_hex(wire_bytes(self@)).map_values(|b: u8| b as char),
    {
        let hexed = self.to_hex_bytes();
        proof {
            lemma_prefixed_hex_ascii(wire_bytes(self@));
        }
        let s = ascii_string(hexed);
        proof {
            assert(s@ =~= prefixed_hex(wire_bytes(self@)).map_values(|b: u8| b as char));
        }
        s
    }

    /// Decodes `0x`-prefixed hex text given as ASCII bytes: format errors are
    /// reported before point validation, then the bytes are decoded exactly as
    /// [`AggregateSignature::deserialize`] decodes them.
    pub fn from_hex_bytes(h: &[u8]) -> (r: Result<Self, Error>)
        ensures
            r is Ok <==> (prefixed_hex_ok(h@) && (prefixed_hex_bytes(h@) == none_signature_bytes()
                || AggSig::spec_valid(prefixed_hex_bytes(h@)))),
            r matches Ok(a) ==> a@ == (if prefixed_hex_bytes(h@) == none_signature_bytes() {
                Option::<Seq<u8>>::None
            } else {
                Option::Some(prefixed_hex_bytes(h@))
            }),
            r matches Err(e) ==> e == (if !prefixed_hex_ok(h@) {
                prefixed_hex_error(h@)
            } else if prefixed_hex_bytes(h@).len() != SIGNATURE_BYTES_LEN {
                Error::InvalidByteLength {
                    got: prefixed_hex_bytes(h@).len() as usize,
                    expected: SIGNATURE_BYTES_LEN,
                }
            } else {
                Error::InvalidPoint
            }),
    {
        match decode_prefixed(h) {
            Result::Err(e) => Result::Err(e),
            Result::Ok(bytes) => Self::deserialize(bytes.as_slice()),
        }
    }

    /// Decodes `0x`-prefixed hex text, as [`AggregateSignature::from_hex_bytes`]
    /// does on the text's bytes.
    pub fn from_hex_string(s: &str) -> (r: Result<Self, Error>)
        ensures
            r is Ok <==> (prefixed_hex_ok(s.spec_bytes()) && (prefixed_hex_bytes(s.spec_bytes())
                == none_signature_bytes() || AggSig::spec_valid(
                prefixed_hex_bytes(s.spec_bytes()),
            ))),
            r matches Ok(a) ==> a@ == (if prefixed_hex_bytes(s.spec_bytes())
                == none_signature_bytes() {
                Option::<Seq<u8>>::None
            } else {
                Option::Some(prefixed_hex_bytes(s.spec_bytes()))
            }),
            r matches Err(e) ==> e == (if !prefixed_hex_ok(s.spec_bytes()) {
                prefixed_hex_error(s.spec_bytes())
            } else if prefixed_hex_bytes(s.spec_bytes()).len() != SIGNATURE_BYTES_LEN {
                Error::InvalidByteLength {
                    got: prefixed_hex_bytes(s.spec_bytes()).len() as usize,
                    expected: SIGNATURE_BYTES_LEN,
                }
            } else {
                Error::InvalidPoint
            }),
    {
        Self::from_hex_bytes(s.as_bytes())
    }
}

} // verus!
