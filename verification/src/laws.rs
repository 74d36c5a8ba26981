//! Laws that relate the constructors and tagging operations to each
//! other, each proved once and for all inputs.

use vstd::prelude::*;

use crate::endian::swap_bytes_u16;
use crate::endian::swap_bytes_u32;
use crate::endian::u128_be_bytes;
use crate::endian::u128_from_be_bytes;
use crate::endian::u128_le_bytes;
use crate::error::Error;
use crate::tags::apply_variant;
use crate::tags::tag_variant;
use crate::tags::tag_version;
use crate::tags::version_number;
use crate::tags::Variant;
use crate::tags::Version;
use crate::value::fields_be_bytes;
use crate::value::fields_le_bytes;
use crate::value::spec_from_slice;

verus! {

/// Wrapping 16 bytes directly and ingesting the same 16 bytes through
/// the length-checked path yield the same value: on a sequence of
/// exactly 16 bytes, the checked path succeeds with the bytes verbatim,
/// which is precisely what the direct wrap holds.
pub proof fn lemma_from_bytes_from_slice_agree(b: Seq<u8>)
    requires
        b.len() == 16,
    ensures
        spec_from_slice(b) == Ok::<Seq<u8>, Error>(b),
{
}

/// A byte sequence of any length other than 16 is rejected with a
/// length mismatch that reports the 16 bytes expected and the length
/// observed.
pub proof fn lemma_from_slice_rejects_wrong_length(b: Seq<u8>)
    requires
        b.len() != 16,
        b.len() <= usize::MAX,
    ensures
        spec_from_slice(b) == Err::<Seq<u8>, Error>(
            (Error { expected: 16, actual: b.len() as usize }),
        ),
        spec_from_slice(b)->Err_0.actual == b.len(),
{
}

/// Round trip: packing a 128-bit value big-endian and reading the 16
/// bytes back as a big-endian integer recovers the value.
pub proof fn lemma_u128_be_roundtrip(v: u128)
    ensures
        u128_from_be_bytes(u128_be_bytes(v)) == v,
{
    assert(((((v >> 120) as u8) as u128) << 120) | ((((v >> 112) as u8) as u128) << 112)
        | ((((v >> 104) as u8) as u128) << 104) | ((((v >> 96) as u8) as u128) << 96)
        | ((((v >> 88) as u8) as u128) << 88) | ((((v >> 80) as u8) as u128) << 80)
        | ((((v >> 72) as u8) as u128) << 72) | ((((v >> 64) as u8) as u128) << 64)
        | ((((v >> 56) as u8) as u128) << 56) | ((((v >> 48) as u8) as u128) << 48)
        | ((((v >> 40) as u8) as u128) << 40) | ((((v >> 32) as u8) as u128) << 32)
        | ((((v >> 24) as u8) as u128) << 24) | ((((v >> 16) as u8) as u128) << 16)
        | ((((v >> 8) as u8) as u128) << 8) | ((v as u8) as u128) == v) by (bit_vector);
}

/// Reversal: the little-endian packing of a 128-bit value is the
/// big-endian packing with the full 16-byte order reversed.
pub proof fn lemma_u128_le_reverses_be(v: u128)
    ensures
        u128_le_bytes(v) == u128_be_bytes(v).reverse(),
{
    assert(u128_le_bytes(v) =~= u128_be_bytes(v).reverse());
}

/// Field-level endianness: packing fields little-endian is packing the
/// byte-swapped fields big-endian — only the three numeric fields are
/// swapped, the eight trailing bytes are untouched.
pub proof fn lemma_fields_le_swaps_fields(d1: u32, d2: u16, d3: u16, d4: Seq<u8>)
    requires
        d4.len() == 8,
    ensures
        fields_le_bytes(d1, d2, d3, d4) == fields_be_bytes(
            swap_bytes_u32(d1),
            swap_bytes_u16(d2),
            swap_bytes_u16(d3),
            d4,
        ),
{
    assert(d1 as u8 == (swap_bytes_u32(d1) >> 24) as u8) by (bit_vector);
    assert((d1 >> 8) as u8 == (swap_bytes_u32(d1) >> 16) as u8) by (bit_vector);
    assert((d1 >> 16) as u8 == (swap_bytes_u32(d1) >> 8) as u8) by (bit_vector);
    assert((d1 >> 24) as u8 == swap_bytes_u32(d1) as u8) by (bit_vector);
    assert(d2 as u8 == (swap_bytes_u16(d2) >> 8) as u8) by (bit_vector);
    assert((d2 >> 8) as u8 == swap_bytes_u16(d2) as u8) by (bit_vector);
    assert(d3 as u8 == (swap_bytes_u16(d3) >> 8) as u8) by (bit_vector);
    assert((d3 >> 8) as u8 == swap_bytes_u16(d3) as u8) by (bit_vector);
    assert(fields_le_bytes(d1, d2, d3, d4) =~= fields_be_bytes(
        swap_bytes_u32(d1),
        swap_bytes_u16(d2),
        swap_bytes_u16(d3),
        d4,
    ));
}

/// Applying the same variant tag to a byte twice changes nothing after
/// the first application.
pub proof fn lemma_apply_variant_idempotent(byte: u8, v: Variant)
    ensures
        apply_variant(apply_variant(byte, v), v) == apply_variant(byte, v),
{
    match v {
        Variant::NCS => {
            assert((byte & 0x7f) & 0x7f == byte & 0x7f) by (bit_vector);
        },
        Variant::RFC4122 => {
            assert((((byte & 0x3f) | 0x80) & 0x3f) | 0x80 == (byte & 0x3f) | 0x80)
                by (bit_vector);
        },
        Variant::Microsoft => {
            assert((((byte & 0x1f) | 0xc0) & 0x1f) | 0xc0 == (byte & 0x1f) | 0xc0)
                by (bit_vector);
        },
        Variant::Future => {
            assert((((byte & 0x1f) | 0xe0) & 0x1f) | 0xe0 == (byte & 0x1f) | 0xe0)
                by (bit_vector);
        },
    }
}

/// Idempotence of variant tagging on the whole 16-byte layout: a second
/// application of the same variant leaves every byte, byte 8 included,
/// as the first application left it.
pub proof fn lemma_tag_variant_idempotent(s: Seq<u8>, v: Variant)
    requires
        s.len() == 16,
    ensures
        tag_variant(tag_variant(s, v), v) == tag_variant(s, v),
{
    lemma_apply_variant_idempotent(s[8], v);
    assert(tag_variant(tag_variant(s, v), v) =~= tag_variant(s, v));
}

/// Idempotence of version tagging: a second application of the same
/// version leaves the layout as the first application left it.
pub proof fn lemma_tag_version_idempotent(s: Seq<u8>, v: Version)
    requires
        s.len() == 16,
    ensures
        tag_version(tag_version(s, v), v) == tag_version(s, v),
{
    let byte: u8 = s[6];
    let n: u8 = version_number(v);
    assert(((byte & 0x0f) | (n << 4)) & 0x0f | (n << 4) == (byte & 0x0f) | (n << 4))
        by (bit_vector);
    assert(tag_version(tag_version(s, v), v) =~= tag_version(s, v));
}

/// Commutativity: the variant and version tags live in disjoint bytes
/// (8 and 6), so applying them in either order yields the same layout.
pub proof fn lemma_tagging_commutes(s: Seq<u8>, x: Variant, y: Version)
    requires
        s.len() == 16,
    ensures
        tag_version(tag_variant(s, x), y) == tag_variant(tag_version(s, y), x),
{
    assert(tag_version(tag_variant(s, x), y) =~= tag_variant(tag_version(s, y), x));
}

} // verus!
