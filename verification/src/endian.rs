//! Byte-level models of the integer encodings the identifier layout uses:
//! big- and little-endian byte sequences of 16-, 32-, 64- and 128-bit
//! values, per-field byte swaps, and the big-endian reading of 16 bytes
//! back into a 128-bit integer.

use vstd::prelude::*;

verus! {

/// The two bytes of `d`, most significant first.
pub open spec fn u16_be_bytes(d: u16) -> Seq<u8> {
    seq![(d >> 8) as u8, d as u8]
}

/// The two bytes of `d`, least significant first.
pub open spec fn u16_le_bytes(d: u16) -> Seq<u8> {
    seq![d as u8, (d >> 8) as u8]
}

/// The four bytes of `d`, most significant first.
pub open spec fn u32_be_bytes(d: u32) -> Seq<u8> {
    seq![(d >> 24) as u8, (d >> 16) as u8, (d >> 8) as u8, d as u8]
}

/// The four bytes of `d`, least significant first.
pub open spec fn u32_le_bytes(d: u32) -> Seq<u8> {
    seq![d as u8, (d >> 8) as u8, (d >> 16) as u8, (d >> 24) as u8]
}

/// The eight bytes of `d`, most significant first.
pub open spec fn u64_be_bytes(d: u64) -> Seq<u8> {
    seq![
        (d >> 56) as u8,
        (d >> 48) as u8,
        (d >> 40) as u8,
        (d >> 32) as u8,
        (d >> 24) as u8,
        (d >> 16) as u8,
        (d >> 8) as u8,
        d as u8,
    ]
}

/// The sixteen bytes of `v`, most significant first.
pub open spec fn u128_be_bytes(v: u128) -> Seq<u8> {
    seq![
        (v >> 120) as u8,
        (v >> 112) as u8,
        (v >> 104) as u8,
        (v >> 96) as u8,
        (v >> 88) as u8,
        (v >> 80) as u8,
        (v >> 72) as u8,
        (v >> 64) as u8,
        (v >> 56) as u8,
        (v >> 48) as u8,
        (v >> 40) as u8,
        (v >> 32) as u8,
        (v >> 24) as u8,
        (v >> 16) as u8,
        (v >> 8) as u8,
        v as u8,
    ]
}

/// The sixteen bytes of `v`, least significant first.
pub open spec fn u128_le_bytes(v: u128) -> Seq<u8> {
    seq![
        v as u8,
        (v >> 8) as u8,
        (v >> 16) as u8,
        (v >> 24) as u8,
        (v >> 32) as u8,
        (v >> 40) as u8,
        (v >> 48) as u8,
        (v >> 56) as u8,
        (v >> 64) as u8,
        (v >> 72) as u8,
        (v >> 80) as u8,
        (v >> 88) as u8,
        (v >> 96) as u8,
        (v >> 104) as u8,
        (v >> 112) as u8,
        (v >> 120) as u8,
    ]
}

/// Reads sixteen bytes, most significant first, back into a 128-bit value.
pub open spec fn u128_from_be_bytes(s: Seq<u8>) -> u128
    recommends
        s.len() == 16,
{
    ((s[0] as u128) << 120) | ((s[1] as u128) << 112) | ((s[2] as u128) << 104)
        | ((s[3] as u128) << 96) | ((s[4] as u128) << 88) | ((s[5] as u128) << 80)
        | ((s[6] as u128) << 72) | ((s[7] as u128) << 64) | ((s[8] as u128) << 56)
        | ((s[9] as u128) << 48) | ((s[10] as u128) << 40) | ((s[11] as u128) << 32)
        | ((s[12] as u128) << 24) | ((s[13] as u128) << 16) | ((s[14] as u128) << 8)
        | (s[15] as u128)
}

/// `d` with its two bytes exchanged.
pub open spec fn swap_bytes_u16(d: u16) -> u16 {
    (d << 8) | (d >> 8)
}

/// `d` with its four bytes reversed.
pub open spec fn swap_bytes_u32(d: u32) -> u32 {
    ((d & 0xff) << 24) | (((d >> 8) & 0xff) << 16) | (((d >> 16) & 0xff) << 8) | (d >> 24)
}

} // verus!
