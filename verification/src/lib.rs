//! Constructors and bit-level tagging for 128-bit universally unique
//! identifiers (RFC 4122).
//!
//! The crate offers two cooperating types over one fixed 16-byte layout:
//! an immutable [`Uuid`] value with constructors from raw bytes, slices,
//! field groups and 128-bit integers, and a mutable [`Builder`] that adds
//! variant and version tagging before the value is frozen.

pub mod builder;
pub mod endian;
pub mod error;
pub mod laws;
pub mod tags;
pub mod value;

pub use builder::Builder;
pub use error::Error;
pub use tags::Variant;
pub use tags::Version;
pub use value::Bytes;
pub use value::Uuid;
