//! A packed-bitfield storage engine.
//!
//! Given an ordered schema of named fields, each with a bit width drawn from
//! a specifier, the crate computes a byte-level layout, allocates a minimal
//! zero-filled backing buffer, and gives exact bit-level read and write
//! access to every field, including fields that cross byte boundaries.  Bit
//! numbering is most-significant-bit first: bit 0 is the most significant
//! bit of byte 0.
//!
//! - [`codec`] holds the bit codec, [`read_bits`] and [`write_bits`]: the
//!   primitives that extract and insert an arbitrary bit range of a buffer.
//! - [`bits`] holds the mathematical model the codec is specified against.
//! - [`layout`] computes and validates per-field offsets and the total size.
//! - [`specifiers`] binds types to bit widths with a lossless encoding into
//!   an unsigned 64-bit domain value.
//! - [`enums`] validates enumerations used as specifiers.
//! - [`access`] combines codec and specifier into typed field accessors.
//! - [`checks`] holds type-level markers with which a code-generation driver
//!   can carry the same validity facts as compile-time obligations.

pub mod access;
pub mod bits;
pub mod checks;
pub mod codec;
pub mod enums;
pub mod layout;
pub mod specifiers;

pub use access::get_field;
pub use access::set_field;
pub use codec::read_bits;
pub use codec::write_bits;
pub use enums::bits_to_hold_val;
pub use enums::validate_enum_specifier;
pub use enums::EnumVariant;
pub use enums::SpecifierError;
pub use layout::allocate_buffer;
pub use layout::build_layout;
pub use layout::FieldLayout;
pub use layout::FieldSpec;
pub use layout::Layout;
pub use layout::LayoutError;
pub use specifiers::Specifier;
pub use specifiers::B1;
pub use specifiers::B2;
pub use specifiers::B3;
pub use specifiers::B4;
pub use specifiers::B5;
pub use specifiers::B6;
pub use specifiers::B7;
pub use specifiers::B8;
pub use specifiers::B9;
pub use specifiers::B10;
pub use specifiers::B11;
pub use specifiers::B12;
pub use specifiers::B13;
pub use specifiers::B14;
pub use specifiers::B15;
pub use specifiers::B16;
pub use specifiers::B17;
pub use specifiers::B18;
pub use specifiers::B19;
pub use specifiers::B20;
pub use specifiers::B21;
pub use specifiers::B22;
pub use specifiers::B23;
pub use specifiers::B24;
pub use specifiers::B25;
pub use specifiers::B26;
pub use specifiers::B27;
pub use specifiers::B28;
pub use specifiers::B29;
pub use specifiers::B30;
pub use specifiers::B31;
pub use specifiers::B32;
pub use specifiers::B33;
pub use specifiers::B34;
pub use specifiers::B35;
pub use specifiers::B36;
pub use specifiers::B37;
pub use specifiers::B38;
pub use specifiers::B39;
pub use specifiers::B40;
pub use specifiers::B41;
pub use specifiers::B42;
pub use specifiers::B43;
pub use specifiers::B44;
pub use specifiers::B45;
pub use specifiers::B46;
pub use specifiers::B47;
pub use specifiers::B48;
pub use specifiers::B49;
pub use specifiers::B50;
pub use specifiers::B51;
pub use specifiers::B52;
pub use specifiers::B53;
pub use specifiers::B54;
pub use specifiers::B55;
pub use specifiers::B56;
pub use specifiers::B57;
pub use specifiers::B58;
pub use specifiers::B59;
pub use specifiers::B60;
pub use specifiers::B61;
pub use specifiers::B62;
pub use specifiers::B63;
pub use specifiers::B64;
