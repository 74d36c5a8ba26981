//! The two tags RFC 4122 reserves inside the 16-byte layout: the variant,
//! packed into the top bits of byte 8, and the version, packed into the
//! top four bits of byte 6.  This module gives their numeric encodings
//! and the byte-level effect of applying each tag.

use vstd::prelude::*;

verus! {

/// The layout convention an identifier follows, stored in the top one to
/// three bits of byte 8.
#[derive(Clone, Copy, Debug, PartialEq, Eq, Structural)]
pub enum Variant {
    /// Reserved by the NCS for backward compatibility: top bit `0`.
    NCS,
    /// The RFC 4122 layout: top bits `10`.
    RFC4122,
    /// Reserved by Microsoft for backward compatibility: top bits `110`.
    Microsoft,
    /// Reserved for future definition: top bits `111`.
    Future,
}

/// The generation scheme an identifier declares, stored as a number in
/// the top four bits of byte 6.
#[derive(Clone, Copy, Debug, PartialEq, Eq, Structural)]
pub enum Version {
    /// The special all-zero identifier.
    Nil,
    /// Version 1: time-based.
    Mac,
    /// Version 2: DCE security.
    Dce,
    /// Version 3: name-based with MD5.
    Md5,
    /// Version 4: random.
    Random,
    /// Version 5: name-based with SHA-1.
    Sha1,
}

/// The number a version tag writes into the high nibble of byte 6.
pub open spec fn version_number(v: Version) -> u8 {
    match v {
        Version::Nil => 0,
        Version::Mac => 1,
        Version::Dce => 2,
        Version::Md5 => 3,
        Version::Random => 4,
        Version::Sha1 => 5,
    }
}

/// Byte 8 after the variant tag `v` is applied: the tag pattern replaces
/// the top bits, the remaining low bits are preserved.
pub open spec fn apply_variant(byte: u8, v: Variant) -> u8 {
    match v {
        Variant::NCS => byte & 0x7f,
        Variant::RFC4122 => (byte & 0x3f) | 0x80,
        Variant::Microsoft => (byte & 0x1f) | 0xc0,
        Variant::Future => (byte & 0x1f) | 0xe0,
    }
}

/// Byte 6 after the version tag `v` is applied: the version number
/// replaces the high nibble, the low nibble is preserved.
pub open spec fn apply_version(byte: u8, v: Version) -> u8 {
    (byte & 0x0f) | (version_number(v) << 4)
}

/// A 16-byte layout after the variant tag `v` is applied to byte 8.
pub open spec fn tag_variant(s: Seq<u8>, v: Variant) -> Seq<u8>
    recommends
        s.len() == 16,
{
    s.update(8, apply_variant(s[8], v))
}

/// A 16-byte layout after the version tag `v` is applied to byte 6.
pub open spec fn tag_version(s: Seq<u8>, v: Version) -> Seq<u8>
    recommends
        s.len() == 16,
{
    s.update(6, apply_version(s[6], v))
}

impl Version {
    /// The numeric value of the version tag.
    pub fn number(self) -> (n: u8)
        ensures
            n == version_number(self),
    {
        match self {
            Version::Nil => 0,
            Version::Mac => 1,
            Version::Dce => 2,
            Version::Md5 => 3,
            Version::Random => 4,
            Version::Sha1 => 5,
        }
    }
}

} // verus!
