//! The immutable identifier value: a 16-byte container in the canonical
//! RFC 4122 big-endian layout, with constructors from raw bytes, byte
//! slices, field groups and 64/128-bit integers.

use vstd::prelude::*;

use crate::endian::u128_be_bytes;
use crate::endian::u128_le_bytes;
use crate::endian::u16_be_bytes;
use crate::endian::u16_le_bytes;
use crate::endian::u32_be_bytes;
use crate::endian::u32_le_bytes;
use crate::endian::u64_be_bytes;
use crate::error::Error;

verus! {

/// The sole storage representation: exactly 16 unsigned 8-bit values.
pub type Bytes = [u8; 16];

/// A 128-bit universally unique identifier, immutable after construction,
/// holding the canonical big-endian byte layout of RFC 4122.
#[derive(Clone, Copy, Debug, PartialEq, Eq)]
pub struct Uuid(pub Bytes);

impl View for Uuid {
    type V = Seq<u8>;

    open spec fn view(&self) -> Seq<u8> {
        self.0@
    }
}

/// The all-zero 16-byte layout.
pub open spec fn nil_bytes() -> Seq<u8> {
    Seq::new(16, |i: int| 0u8)
}

/// The 16-byte layout the field constructors produce: the three numeric
/// fields one after the other, then the eight raw trailing bytes.
pub open spec fn fields_be_bytes(d1: u32, d2: u16, d3: u16, d4: Seq<u8>) -> Seq<u8>
    recommends
        d4.len() == 8,
{
    u32_be_bytes(d1) + u16_be_bytes(d2) + u16_be_bytes(d3) + d4
}

/// The same field placement with the three numeric fields byte-swapped;
/// the eight trailing bytes are never swapped.
pub open spec fn fields_le_bytes(d1: u32, d2: u16, d3: u16, d4: Seq<u8>) -> Seq<u8>
    recommends
        d4.len() == 8,
{
    u32_le_bytes(d1) + u16_le_bytes(d2) + u16_le_bytes(d3) + d4
}

/// What ingesting a variable-length byte sequence yields: the bytes
/// verbatim when there are exactly 16 of them, and otherwise the length
/// mismatch, reporting the 16 bytes expected and the length observed.
pub open spec fn spec_from_slice(s: Seq<u8>) -> Result<Seq<u8>, Error> {
    if s.len() == 16 {
        Result::Ok(s)
    } else {
        Result::Err(Error { expected: 16, actual: s.len() as usize })
    }
}

impl Uuid {
    /// The nil identifier: all 128 bits zero, as RFC 4122 defines it.
    pub fn nil() -> (r: Uuid)
        ensures
            r@ == nil_bytes(),
    {
        let r = Uuid::from_bytes([0; 16]);
        proof {
            assert(r@ =~= nil_bytes());
        }
        r
    }

    /// Wraps the 16 bytes exactly as given: they already are the
    /// canonical big-endian layout.
    pub fn from_bytes(bytes: Bytes) -> (r: Uuid)
        ensures
            r@ == bytes@,
    {
        Uuid(bytes)
    }

    /// Copies a byte sequence verbatim when it holds exactly 16 bytes,
    /// and reports the length mismatch otherwise.
    pub fn from_slice(b: &[u8]) -> (r: Result<Uuid, Error>)
        ensures
            match r {
                Ok(u) => spec_from_slice(b@) == Ok::<Seq<u8>, Error>(u@),
                Err(e) => spec_from_slice(b@) == Err::<Seq<u8>, Error>(e),
            },
    {
        let len: usize = b.len();
        if len != 16 {
            return Err(Error { expected: 16, actual: len });
        }
        let mut bytes: Bytes = [0; 16];
        let mut i: usize = 0;
        while i < 16
            invariant
                i <= 16,
                b@.len() == 16,
                forall|j: int| 0 <= j < i ==> bytes@[j] == b@[j],
            decreases 16 - i,
        {
            bytes[i] = b[i];
            i = i + 1;
        }
        let r = Uuid::from_bytes(bytes);
        proof {
            assert(r@ =~= b@);
        }
        Ok(r)
    }

    /// Packs the four named fields in RFC big-endian order: `d1` into
    /// bytes 0–3 most significant byte first, `d2` into bytes 4–5, `d3`
    /// into bytes 6–7, and `d4` verbatim into bytes 8–15.
    pub fn from_fields(d1: u32, d2: u16, d3: u16, d4: &[u8; 8]) -> (r: Uuid)
        ensures
            r@ == fields_be_bytes(d1, d2, d3, d4@),
    {
        let r = Uuid::from_bytes([
            (d1 >> 24) as u8,
            (d1 >> 16) as u8,
            (d1 >> 8) as u8,
            d1 as u8,
            (d2 >> 8) as u8,
            d2 as u8,
            (d3 >> 8) as u8,
            d3 as u8,
            d4[0],
            d4[1],
            d4[2],
            d4[3],
            d4[4],
            d4[5],
            d4[6],
            d4[7],
        ]);
        proof {
            assert(r@ =~= fields_be_bytes(d1, d2, d3, d4@));
        }
        r
    }

    /// Packs the same four fields, with the bytes of `d1`, `d2` and `d3`
    /// each reversed to little-endian order; the first eight bytes of
    /// `d4` are copied verbatim, as a raw byte sequence has no numeric
    /// endianness.
    pub fn from_fields_le(d1: u32, d2: u16, d3: u16, d4: &[u8]) -> (r: Uuid)
        requires
            d4@.len() >= 8,
        ensures
            r@ == fields_le_bytes(d1, d2, d3, d4@.subrange(0, 8)),
    {
        let r = Uuid::from_bytes([
            d1 as u8,
            (d1 >> 8) as u8,
            (d1 >> 16) as u8,
            (d1 >> 24) as u8,
            d2 as u8,
            (d2 >> 8) as u8,
            d3 as u8,
            (d3 >> 8) as u8,
            d4[0],
            d4[1],
            d4[2],
            d4[3],
            d4[4],
            d4[5],
            d4[6],
            d4[7],
        ]);
        proof {
            assert(r@ =~= fields_le_bytes(d1, d2, d3, d4@.subrange(0, 8)));
        }
        r
    }

    /// Packs a 128-bit value most significant byte first, filling all
    /// 16 bytes.
    pub fn from_u128(v: u128) -> (r: Uuid)
        ensures
            r@ == u128_be_bytes(v),
    {
        let r = Uuid::from_bytes([
            (v >> 120) as u8,
            (v >> 112) as u8,
            (v >> 104) as u8,
            (v >> 96) as u8,
            (v >> 88) as u8,
            (v >> 80) as u8,
            (v >> 72) as u8,
            (v >> 64) as u8,
            (v >> 56) as u8,
            (v >> 48) as u8,
            (v >> 40) as u8,
            (v >> 32) as u8,
            (v >> 24) as u8,
            (v >> 16) as u8,
            (v >> 8) as u8,
            v as u8,
        ]);
        proof {
            assert(r@ =~= u128_be_bytes(v));
        }
        r
    }

    /// Packs a 128-bit value least significant byte first: the full
    /// 16-byte sequence is reversed, unlike the per-field reversal of
    /// `from_fields_le`.
    pub fn from_u128_le(v: u128) -> (r: Uuid)
        ensures
            r@ == u128_le_bytes(v),
    {
        let r = Uuid::from_bytes([
            v as u8,
            (v >> 8) as u8,
            (v >> 16) as u8,
            (v >> 24) as u8,
            (v >> 32) as u8,
            (v >> 40) as u8,
            (v >> 48) as u8,
            (v >> 56) as u8,
            (v >> 64) as u8,
            (v >> 72) as u8,
            (v >> 80) as u8,
            (v >> 88) as u8,
            (v >> 96) as u8,
            (v >> 104) as u8,
            (v >> 112) as u8,
            (v >> 120) as u8,
        ]);
        proof {
            assert(r@ =~= u128_le_bytes(v));
        }
        r
    }

    /// Packs two 64-bit values, `high_bits` big-endian into bytes 0–7
    /// and `low_bits` big-endian into bytes 8–15.
    pub fn from_u64_pair(high_bits: u64, low_bits: u64) -> (r: Uuid)
        ensures
            r@ == u64_be_bytes(high_bits) + u64_be_bytes(low_bits),
    {
        let r = Uuid::from_bytes([
            (high_bits >> 56) as u8,
            (high_bits >> 48) as u8,
            (high_bits >> 40) as u8,
            (high_bits >> 32) as u8,
            (high_bits >> 24) as u8,
            (high_bits >> 16) as u8,
            (high_bits >> 8) as u8,
            high_bits as u8,
            (low_bits >> 56) as u8,
            (low_bits >> 48) as u8,
            (low_bits >> 40) as u8,
            (low_bits >> 32) as u8,
            (low_bits >> 24) as u8,
            (low_bits >> 16) as u8,
            (low_bits >> 8) as u8,
            low_bits as u8,
        ]);
        proof {
            assert(r@ =~= u64_be_bytes(high_bits) + u64_be_bytes(low_bits));
        }
        r
    }

    /// A read-only reference to the 16 bytes of the identifier.
    pub fn as_bytes(&self) -> (r: &Bytes)
        ensures
            r@ == self@,
    {
        &self.0
    }
}

} // verus!
