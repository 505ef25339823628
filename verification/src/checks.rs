//! Type-level markers for schema validity.
//!
//! A code-generation driver can state "the total size is a multiple of eight
//! bits" and "every discriminant is in range" as compile-time facts: it maps
//! a computed number to one of the marker types below through
//! [`TypeSelector`] and demands, through [`Check`] or [`Check2`], the trait
//! that only the valid marker implements.  The runtime validators in
//! [`crate::layout`] and [`crate::enums`] establish the same facts with
//! ordinary checks that return an error.

use vstd::prelude::*;

verus! {

/// Implemented only by the remainder marker of a byte-aligned total,
/// [`ZeroMod8`].
pub trait TotalSizeIsMultipleOfEightBits {

}

/// A total bit count leaving remainder 0 modulo eight.
pub struct ZeroMod8 {}

/// A total bit count leaving remainder 1 modulo eight.
pub struct OneMod8 {}

/// A total bit count leaving remainder 2 modulo eight.
pub struct TwoMod8 {}

/// A total bit count leaving remainder 3 modulo eight.
pub struct ThreeMod8 {}

/// A total bit count leaving remainder 4 modulo eight.
pub struct FourMod8 {}

/// A total bit count leaving remainder 5 modulo eight.
pub struct FiveMod8 {}

/// A total bit count leaving remainder 6 modulo eight.
pub struct SixMod8 {}

/// A total bit count leaving remainder 7 modulo eight.
pub struct SevenMod8 {}

impl TotalSizeIsMultipleOfEightBits for ZeroMod8 {

}

/// Maps a selector to the marker type it stands for.
pub trait TypeSelector {
    /// The marker type selected.
    type Type;
}

/// Selects a remainder marker by an array type of length `total % 8`.
#[verifier::reject_recursive_types(T)]
pub struct Selector<T> {
    _marker: core::marker::PhantomData<T>,
}

impl TypeSelector for Selector<[u8; 0]> {
    type Type = ZeroMod8;
}

impl TypeSelector for Selector<[u8; 1]> {
    type Type = OneMod8;
}

impl TypeSelector for Selector<[u8; 2]> {
    type Type = TwoMod8;
}

impl TypeSelector for Selector<[u8; 3]> {
    type Type = ThreeMod8;
}

impl TypeSelector for Selector<[u8; 4]> {
    type Type = FourMod8;
}

impl TypeSelector for Selector<[u8; 5]> {
    type Type = FiveMod8;
}

impl TypeSelector for Selector<[u8; 6]> {
    type Type = SixMod8;
}

impl TypeSelector for Selector<[u8; 7]> {
    type Type = SevenMod8;
}

/// Demands byte alignment: only a marker implementing
/// [`TotalSizeIsMultipleOfEightBits`] can instantiate it.
#[verifier::reject_recursive_types(T)]
pub struct Check<T: TotalSizeIsMultipleOfEightBits> {
    marker: core::marker::PhantomData<T>,
}

/// Implemented only by [`True`], the marker of a discriminant in range.
pub trait DiscriminantInRange {

}

/// The marker of a condition that holds.
pub struct True {}

/// The marker of a condition that fails.
pub struct False {}

impl DiscriminantInRange for True {

}

/// Selects [`True`] or [`False`] by a boolean fact computed at compile
/// time.
pub struct Selector2<const T: bool> {}

impl TypeSelector for Selector2<true> {
    type Type = True;
}

impl TypeSelector for Selector2<false> {
    type Type = False;
}

/// Demands a discriminant in range: only a marker implementing
/// [`DiscriminantInRange`] can instantiate it.
#[verifier::reject_recursive_types(T)]
pub struct Check2<T: DiscriminantInRange> {
    marker: core::marker::PhantomData<T>,
}

} // verus!
