//! Typed field access: the bit codec combined with a specifier.
//!
//! A field lives at a bit offset computed by the layout calculator and has
//! the width of its specifier; reading extracts the bits and decodes them,
//! writing encodes the value and inserts its bits, leaving every other bit
//! of the buffer unchanged.

use vstd::prelude::*;

verus! {

use crate::bits::bit_at;
use crate::bits::bits_value;
use crate::bits::val_bit;
use crate::codec::read_bits;
use crate::codec::write_bits;
use crate::specifiers::Specifier;

/// Reads the field of specifier `S` that starts at bit `offset`: the stored
/// bits, decoded through the specifier.
pub fn get_field<S: Specifier>(data: &[u8], offset: usize) -> (r: S::DataType)
    requires
        offset + S::spec_bits() <= data@.len() * 8,
        offset + S::spec_bits() <= usize::MAX,
    ensures
        r == S::spec_from(bits_value(data@, offset as nat, S::spec_bits()) as u64),
{
    proof {
        S::lemma_bits_bounds();
    }
    let w: usize = S::bits();
    let v: u64 = read_bits(data, offset, w);
    S::from_u64(v)
}

/// Writes `val` into the field of specifier `S` that starts at bit
/// `offset`: the field's bits afterwards hold the encoding of `val`, every
/// bit outside the field is unchanged, and reading the field back decodes
/// to `val` again.
pub fn set_field<S: Specifier>(data: &mut [u8], offset: usize, val: S::DataType)
    requires
        S::spec_valid(val),
        offset + S::spec_bits() <= old(data)@.len() * 8,
        offset + S::spec_bits() <= usize::MAX,
    ensures
        final(data)@.len() == old(data)@.len(),
        bits_value(final(data)@, offset as nat, S::spec_bits()) == S::spec_to(val) as nat,
        S::spec_from(bits_value(final(data)@, offset as nat, S::spec_bits()) as u64) == val,
        forall|i: nat|
            i < final(data)@.len() * 8 && !(offset <= i < offset + S::spec_bits())
                ==> #[trigger] bit_at(final(data)@, i) == bit_at(old(data)@, i),
{
    proof {
        S::lemma_bits_bounds();
        S::lemma_to_in_range(val);
        S::lemma_round_trip(val);
    }
    let w: usize = S::bits();
    let v: u64 = S::to_u64(val);
    write_bits(data, offset, w, v);
}

} // verus!
