//! The mutable staging type: the same 16-byte layout as the identifier
//! value, plus variant and version tagging, frozen into a [`Uuid`] by
//! `build` or `into_uuid`.

use vstd::prelude::*;

use crate::endian::u128_be_bytes;
use crate::error::Error;
use crate::tags::tag_variant;
use crate::tags::tag_version;
use crate::tags::Variant;
use crate::tags::Version;
use crate::value::fields_be_bytes;
use crate::value::fields_le_bytes;
use crate::value::nil_bytes;
use crate::value::spec_from_slice;
use crate::value::Bytes;
use crate::value::Uuid;

verus! {

/// A staging area for an identifier under construction: the 16-byte
/// layout of [`Uuid`], still open to variant and version tagging.
#[derive(Clone, Copy, Debug, PartialEq, Eq)]
pub struct Builder(pub Bytes);

impl View for Builder {
    type V = Seq<u8>;

    open spec fn view(&self) -> Seq<u8> {
        self.0@
    }
}

impl Builder {
    /// Wraps the 16 bytes exactly as given.
    pub fn from_bytes(b: Bytes) -> (r: Builder)
        ensures
            r@ == b@,
    {
        Builder(b)
    }

    /// Copies a byte sequence verbatim when it holds exactly 16 bytes,
    /// and reports the length mismatch otherwise.
    pub fn from_slice(b: &[u8]) -> (r: Result<Builder, Error>)
        ensures
            match r {
                Ok(builder) => spec_from_slice(b@) == Ok::<Seq<u8>, Error>(builder@),
                Err(e) => spec_from_slice(b@) == Err::<Seq<u8>, Error>(e),
            },
    {
        match Uuid::from_slice(b) {
            Ok(u) => Ok(Builder(u.0)),
            Err(e) => Err(e),
        }
    }

    /// Packs the four named fields big-endian, as [`Uuid::from_fields`]
    /// does.
    pub fn from_fields(d1: u32, d2: u16, d3: u16, d4: &[u8; 8]) -> (r: Builder)
        ensures
            r@ == fields_be_bytes(d1, d2, d3, d4@),
    {
        Builder::from_bytes(*Uuid::from_fields(d1, d2, d3, d4).as_bytes())
    }

    /// Packs the four named fields with `d1`, `d2` and `d3` byte-swapped,
    /// as [`Uuid::from_fields_le`] does.
    pub fn from_fields_le(d1: u32, d2: u16, d3: u16, d4: &[u8; 8]) -> (r: Builder)
        ensures
            r@ == fields_le_bytes(d1, d2, d3, d4@),
    {
        let r = Builder::from_bytes(*Uuid::from_fields_le(d1, d2, d3, d4.as_slice()).as_bytes());
        proof {
            assert(d4@.subrange(0, 8) =~= d4@);
        }
        r
    }

    /// Packs a 128-bit value most significant byte first, as
    /// [`Uuid::from_u128`] does.
    pub fn from_u128(v: u128) -> (r: Builder)
        ensures
            r@ == u128_be_bytes(v),
    {
        Builder::from_bytes(*Uuid::from_u128(v).as_bytes())
    }

    /// A builder holding the all-zero layout.
    pub fn nil() -> (r: Builder)
        ensures
            r@ == nil_bytes(),
    {
        let r = Builder([0; 16]);
        proof {
            assert(r@ =~= nil_bytes());
        }
        r
    }

    /// Rewrites the top bits of byte 8 to the tag pattern of the variant
    /// `v`, preserving the bits below the tag.
    pub fn set_variant(&mut self, v: Variant)
        ensures
            final(self)@ == tag_variant(old(self)@, v),
    {
        let byte: u8 = self.0[8];
        self.0[8] = match v {
            Variant::NCS => byte & 0x7f,
            Variant::RFC4122 => (byte & 0x3f) | 0x80,
            Variant::Microsoft => (byte & 0x1f) | 0xc0,
            Variant::Future => (byte & 0x1f) | 0xe0,
        };
    }

    /// The value-returning form of [`Builder::set_variant`].
    pub fn with_variant(self, v: Variant) -> (r: Builder)
        ensures
            r@ == tag_variant(self@, v),
    {
        let mut r = self;
        r.set_variant(v);
        r
    }

    /// Rewrites the high nibble of byte 6 to the version number of `v`,
    /// preserving the low nibble.
    pub fn set_version(&mut self, v: Version)
        ensures
            final(self)@ == tag_version(old(self)@, v),
    {
        self.0[6] = (self.0[6] & 0x0f) | (v.number() << 4);
    }

    /// The value-returning form of [`Builder::set_version`].
    pub fn with_version(self, v: Version) -> (r: Builder)
        ensures
            r@ == tag_version(self@, v),
    {
        let mut r = self;
        r.set_version(v);
        r
    }

    /// Freezes the staged bytes into a [`Uuid`] without consuming the
    /// builder, which stays as it was and may be reused.
    pub fn build(&mut self) -> (r: Uuid)
        ensures
            r@ == old(self)@,
            *final(self) == *old(self),
    {
        Uuid::from_bytes(self.0)
    }

    /// Consumes the builder and yields the [`Uuid`] it staged; the byte
    /// content is the same as [`Builder::build`] yields.
    pub fn into_uuid(self) -> (r: Uuid)
        ensures
            r@ == self@,
    {
        Uuid::from_bytes(self.0)
    }
}

} // verus!
