//! The specifier abstraction.
//!
//! A specifier binds a type to a bit width between 1 and 64 and a lossless
//! encoding of its native values into an unsigned 64-bit domain value: the
//! encoding always fits in the width, and decoding an encoded value gives
//! the value back.  Built in are the boolean, one bit wide, and the unsigned
//! widths `B1` through `B64`, each carried by the smallest native unsigned
//! integer that holds it.

use vstd::prelude::*;

verus! {

use vstd::arithmetic::power2::lemma2_to64;
use vstd::arithmetic::power2::pow2;

/// A binding from a type to a bit width and a lossless encoding into an
/// unsigned 64-bit domain value.  Every implementation must prove the three
/// laws: the width lies in `1..=64`, an encoded valid value fits in the
/// width, and decoding an encoded valid value gives the value back.
pub trait Specifier {
    /// The native type the field is read and written as.
    type DataType;

    /// The bit width of the field.
    spec fn spec_bits() -> nat;

    /// Which native values the encoding covers.
    spec fn spec_valid(v: Self::DataType) -> bool;

    /// The encoding into the unsigned domain value.
    spec fn spec_to(v: Self::DataType) -> u64;

    /// The decoding out of the unsigned domain value.
    spec fn spec_from(v: u64) -> Self::DataType;

    /// The width lies between 1 and 64 bits.
    proof fn lemma_bits_bounds()
        ensures
            1 <= Self::spec_bits() <= 64,
    ;

    /// Encoding a valid value fits in the width.
    proof fn lemma_to_in_range(v: Self::DataType)
        requires
            Self::spec_valid(v),
        ensures
            (Self::spec_to(v) as nat) < pow2(Self::spec_bits()),
    ;

    /// Decoding an encoded valid value gives the value back.
    proof fn lemma_round_trip(v: Self::DataType)
        requires
            Self::spec_valid(v),
        ensures
            Self::spec_from(Self::spec_to(v)) == v,
    ;

    /// The bit width, as a value.
    fn bits() -> (r: usize)
        ensures
            r == Self::spec_bits(),
    ;

    /// Decodes a domain value into a native value.
    fn from_u64(v: u64) -> (r: Self::DataType)
        ensures
            r == Self::spec_from(v),
    ;

    /// Encodes a native value into a domain value.
    fn to_u64(v: Self::DataType) -> (r: u64)
        requires
            Self::spec_valid(v),
        ensures
            r == Self::spec_to(v),
    ;
}

impl Specifier for bool {
    type DataType = bool;

    open spec fn spec_bits() -> nat {
        1
    }

    open spec fn spec_valid(v: bool) -> bool {
        true
    }

    open spec fn spec_to(v: bool) -> u64 {
        if v {
            1
        } else {
            0
        }
    }

    open spec fn spec_from(v: u64) -> bool {
        v == 1
    }

    proof fn lemma_bits_bounds() {
    }

    proof fn lemma_to_in_range(v: bool) {
        lemma2_to64();
    }

    proof fn lemma_round_trip(v: bool) {
    }

    fn bits() -> usize {
        1
    }

    fn from_u64(v: u64) -> bool {
        v == 1
    }

    fn to_u64(v: bool) -> u64 {
        if v {
            1
        } else {
            0
        }
    }
}

/// The 1-bit unsigned specifier.
pub struct B1 {}

impl Specifier for B1 {
    type DataType = u8;

    open spec fn spec_bits() -> nat {
        1
    }

    open spec fn spec_valid(v: u8) -> bool {
        (v as nat) < pow2(1)
    }

    open spec fn spec_to(v: u8) -> u64 {
        v as u64
    }

    open spec fn spec_from(v: u64) -> u8 {
        v as u8
    }

    proof fn lemma_bits_bounds() {
    }

    proof fn lemma_to_in_range(v: u8) {
    }

    proof fn lemma_round_trip(v: u8) {
    }

    fn bits() -> usize {
        1
    }

    fn from_u64(v: u64) -> u8 {
        v as u8
    }

    fn to_u64(v: u8) -> u64 {
        v as u64
    }
}

/// The 2-bit unsigned specifier.
pub struct B2 {}

impl Specifier for B2 {
    type DataType = u8;

    open spec fn spec_bits() -> nat {
        2
    }

    open spec fn spec_valid(v: u8) -> bool {
        (v as nat) < pow2(2)
    }

    open spec fn spec_to(v: u8) -> u64 {
        v as u64
    }

    open spec fn spec_from(v: u64) -> u8 {
        v as u8
    }

    proof fn lemma_bits_bounds() {
    }

    proof fn lemma_to_in_range(v: u8) {
    }

    proof fn lemma_round_trip(v: u8) {
    }

    fn bits() -> usize {
        2
    }

    fn from_u64(v: u64) -> u8 {
        v as u8
    }

    fn to_u64(v: u8) -> u64 {
        v as u64
    }
}

/// The 3-bit unsigned specifier.
pub struct B3 {}

impl Specifier for B3 {
    type DataType = u8;

    open spec fn spec_bits() -> nat {
        3
    }

    open spec fn spec_valid(v: u8) -> bool {
        (v as nat) < pow2(3)
    }

    open spec fn spec_to(v: u8) -> u64 {
        v as u64
    }

    open spec fn spec_from(v: u64) -> u8 {
        v as u8
    }

    proof fn lemma_bits_bounds() {
    }

    proof fn lemma_to_in_range(v: u8) {
    }

    proof fn lemma_round_trip(v: u8) {
    }

    fn bits() -> usize {
        3
    }

    fn from_u64(v: u64) -> u8 {
        v as u8
    }

    fn to_u64(v: u8) -> u64 {
        v as u64
    }
}

/// The 4-bit unsigned specifier.
pub struct B4 {}

impl Specifier for B4 {
    type DataType = u8;

    open spec fn spec_bits() -> nat {
        4
    }

    open spec fn spec_valid(v: u8) -> bool {
        (v as nat) < pow2(4)
    }

    open spec fn spec_to(v: u8) -> u64 {
        v as u64
    }

    open spec fn spec_from(v: u64) -> u8 {
        v as u8
    }

    proof fn lemma_bits_bounds() {
    }

    proof fn lemma_to_in_range(v: u8) {
    }

    proof fn lemma_round_trip(v: u8) {
    }

    fn bits() -> usize {
        4
    }

    fn from_u64(v: u64) -> u8 {
        v as u8
    }

    fn to_u64(v: u8) -> u64 {
        v as u64
    }
}

/// The 5-bit unsigned specifier.
pub struct B5 {}

impl Specifier for B5 {
    type DataType = u8;

    open spec fn spec_bits() -> nat {
        5
    }

    open spec fn spec_valid(v: u8) -> bool {
        (v as nat) < pow2(5)
    }

    open spec fn spec_to(v: u8) -> u64 {
        v as u64
    }

    open spec fn spec_from(v: u64) -> u8 {
        v as u8
    }

    proof fn lemma_bits_bounds() {
    }

    proof fn lemma_to_in_range(v: u8) {
    }

    proof fn lemma_round_trip(v: u8) {
    }

    fn bits() -> usize {
        5
    }

    fn from_u64(v: u64) -> u8 {
        v as u8
    }

    fn to_u64(v: u8) -> u64 {
        v as u64
    }
}

/// The 6-bit unsigned specifier.
pub struct B6 {}

impl Specifier for B6 {
    type DataType = u8;

    open spec fn spec_bits() -> nat {
        6
    }

    open spec fn spec_valid(v: u8) -> bool {
        (v as nat) < pow2(6)
    }

    open spec fn spec_to(v: u8) -> u64 {
        v as u64
    }

    open spec fn spec_from(v: u64) -> u8 {
        v as u8
    }

    proof fn lemma_bits_bounds() {
    }

    proof fn lemma_to_in_range(v: u8) {
    }

    proof fn lemma_round_trip(v: u8) {
    }

    fn bits() -> usize {
        6
    }

    fn from_u64(v: u64) -> u8 {
        v as u8
    }

    fn to_u64(v: u8) -> u64 {
        v as u64
    }
}

/// The 7-bit unsigned specifier.
pub struct B7 {}

impl Specifier for B7 {
    type DataType = u8;

    open spec fn spec_bits() -> nat {
        7
    }

    open spec fn spec_valid(v: u8) -> bool {
        (v as nat) < pow2(7)
    }

    open spec fn spec_to(v: u8) -> u64 {
        v as u64
    }

    open spec fn spec_from(v: u64) -> u8 {
        v as u8
    }

    proof fn lemma_bits_bounds() {
    }

    proof fn lemma_to_in_range(v: u8) {
    }

    proof fn lemma_round_trip(v: u8) {
    }

    fn bits() -> usize {
        7
    }

    fn from_u64(v: u64) -> u8 {
        v as u8
    }

    fn to_u64(v: u8) -> u64 {
        v as u64
    }
}

/// The 8-bit unsigned specifier.
pub struct B8 {}

impl Specifier for B8 {
    type DataType = u8;

    open spec fn spec_bits() -> nat {
        8
    }

    open spec fn spec_valid(v: u8) -> bool {
        (v as nat) < pow2(8)
    }

    open spec fn spec_to(v: u8) -> u64 {
        v as u64
    }

    open spec fn spec_from(v: u64) -> u8 {
        v as u8
    }

    proof fn lemma_bits_bounds() {
    }

    proof fn lemma_to_in_range(v: u8) {
    }

    proof fn lemma_round_trip(v: u8) {
    }

    fn bits() -> usize {
        8
    }

    fn from_u64(v: u64) -> u8 {
        v as u8
    }

    fn to_u64(v: u8) -> u64 {
        v as u64
    }
}

/// The 9-bit unsigned specifier.
pub struct B9 {}

impl Specifier for B9 {
    type DataType = u16;

    open spec fn spec_bits() -> nat {
        9
    }

    open spec fn spec_valid(v: u16) -> bool {
        (v as nat) < pow2(9)
    }

    open spec fn spec_to(v: u16) -> u64 {
        v as u64
    }

    open spec fn spec_from(v: u64) -> u16 {
        v as u16
    }

    proof fn lemma_bits_bounds() {
    }

    proof fn lemma_to_in_range(v: u16) {
    }

    proof fn lemma_round_trip(v: u16) {
    }

    fn bits() -> usize {
        9
    }

    fn from_u64(v: u64) -> u16 {
        v as u16
    }

    fn to_u64(v: u16) -> u64 {
        v as u64
    }
}

/// The 10-bit unsigned specifier.
pub struct B10 {}

impl Specifier for B10 {
    type DataType = u16;

    open spec fn spec_bits() -> nat {
        10
    }

    open spec fn spec_valid(v: u16) -> bool {
        (v as nat) < pow2(10)
    }

    open spec fn spec_to(v: u16) -> u64 {
        v as u64
    }

    open spec fn spec_from(v: u64) -> u16 {
        v as u16
    }

    proof fn lemma_bits_bounds() {
    }

    proof fn lemma_to_in_range(v: u16) {
    }

    proof fn lemma_round_trip(v: u16) {
    }

    fn bits() -> usize {
        10
    }

    fn from_u64(v: u64) -> u16 {
        v as u16
    }

    fn to_u64(v: u16) -> u64 {
        v as u64
    }
}

/// The 11-bit unsigned specifier.
pub struct B11 {}

impl Specifier for B11 {
    type DataType = u16;

    open spec fn spec_bits() -> nat {
        11
    }

    open spec fn spec_valid(v: u16) -> bool {
        (v as nat) < pow2(11)
    }

    open spec fn spec_to(v: u16) -> u64 {
        v as u64
    }

    open spec fn spec_from(v: u64) -> u16 {
        v as u16
    }

    proof fn lemma_bits_bounds() {
    }

    proof fn lemma_to_in_range(v: u16) {
    }

    proof fn lemma_round_trip(v: u16) {
    }

    fn bits() -> usize {
        11
    }

    fn from_u64(v: u64) -> u16 {
        v as u16
    }

    fn to_u64(v: u16) -> u64 {
        v as u64
    }
}

/// The 12-bit unsigned specifier.
pub struct B12 {}

impl Specifier for B12 {
    type DataType = u16;

    open spec fn spec_bits() -> nat {
        12
    }

    open spec fn spec_valid(v: u16) -> bool {
        (v as nat) < pow2(12)
    }

    open spec fn spec_to(v: u16) -> u64 {
        v as u64
    }

    open spec fn spec_from(v: u64) -> u16 {
        v as u16
    }

    proof fn lemma_bits_bounds() {
    }

    proof fn lemma_to_in_range(v: u16) {
    }

    proof fn lemma_round_trip(v: u16) {
    }

    fn bits() -> usize {
        12
    }

    fn from_u64(v: u64) -> u16 {
        v as u16
    }

    fn to_u64(v: u16) -> u64 {
        v as u64
    }
}

/// The 13-bit unsigned specifier.
pub struct B13 {}

impl Specifier for B13 {
    type DataType = u16;

    open spec fn spec_bits() -> nat {
        13
    }

    open spec fn spec_valid(v: u16) -> bool {
        (v as nat) < pow2(13)
    }

    open spec fn spec_to(v: u16) -> u64 {
        v as u64
    }

    open spec fn spec_from(v: u64) -> u16 {
        v as u16
    }

    proof fn lemma_bits_bounds() {
    }

    proof fn lemma_to_in_range(v: u16) {
    }

    proof fn lemma_round_trip(v: u16) {
    }

    fn bits() -> usize {
        13
    }

    fn from_u64(v: u64) -> u16 {
        v as u16
    }

    fn to_u64(v: u16) -> u64 {
        v as u64
    }
}

/// The 14-bit unsigned specifier.
pub struct B14 {}

impl Specifier for B14 {
    type DataType = u16;

    open spec fn spec_bits() -> nat {
        14
    }

    open spec fn spec_valid(v: u16) -> bool {
        (v as nat) < pow2(14)
    }

    open spec fn spec_to(v: u16) -> u64 {
        v as u64
    }

    open spec fn spec_from(v: u64) -> u16 {
        v as u16
    }

    proof fn lemma_bits_bounds() {
    }

    proof fn lemma_to_in_range(v: u16) {
    }

    proof fn lemma_round_trip(v: u16) {
    }

    fn bits() -> usize {
        14
    }

    fn from_u64(v: u64) -> u16 {
        v as u16
    }

    fn to_u64(v: u16) -> u64 {
        v as u64
    }
}

/// The 15-bit unsigned specifier.
pub struct B15 {}

impl Specifier for B15 {
    type DataType = u16;

    open spec fn spec_bits() -> nat {
        15
    }

    open spec fn spec_valid(v: u16) -> bool {
        (v as nat) < pow2(15)
    }

    open spec fn spec_to(v: u16) -> u64 {
        v as u64
    }

    open spec fn spec_from(v: u64) -> u16 {
        v as u16
    }

    proof fn lemma_bits_bounds() {
    }

    proof fn lemma_to_in_range(v: u16) {
    }

    proof fn lemma_round_trip(v: u16) {
    }

    fn bits() -> usize {
        15
    }

    fn from_u64(v: u64) -> u16 {
        v as u16
    }

    fn to_u64(v: u16) -> u64 {
        v as u64
    }
}

/// The 16-bit unsigned specifier.
pub struct B16 {}

impl Specifier for B16 {
    type DataType = u16;

    open spec fn spec_bits() -> nat {
        16
    }

    open spec fn spec_valid(v: u16) -> bool {
        (v as nat) < pow2(16)
    }

    open spec fn spec_to(v: u16) -> u64 {
        v as u64
    }

    open spec fn spec_from(v: u64) -> u16 {
        v as u16
    }

    proof fn lemma_bits_bounds() {
    }

    proof fn lemma_to_in_range(v: u16) {
    }

    proof fn lemma_round_trip(v: u16) {
    }

    fn bits() -> usize {
        16
    }

    fn from_u64(v: u64) -> u16 {
        v as u16
    }

    fn to_u64(v: u16) -> u64 {
        v as u64
    }
}

/// The 17-bit unsigned specifier.
pub struct B17 {}

impl Specifier for B17 {
    type DataType = u32;

    open spec fn spec_bits() -> nat {
        17
    }

    open spec fn spec_valid(v: u32) -> bool {
        (v as nat) < pow2(17)
    }

    open spec fn spec_to(v: u32) -> u64 {
        v as u64
    }

    open spec fn spec_from(v: u64) -> u32 {
        v as u32
    }

    proof fn lemma_bits_bounds() {
    }

    proof fn lemma_to_in_range(v: u32) {
    }

    proof fn lemma_round_trip(v: u32) {
    }

    fn bits() -> usize {
        17
    }

    fn from_u64(v: u64) -> u32 {
        v as u32
    }

    fn to_u64(v: u32) -> u64 {
        v as u64
    }
}

/// The 18-bit unsigned specifier.
pub struct B18 {}

impl Specifier for B18 {
    type DataType = u32;

    open spec fn spec_bits() -> nat {
        18
    }

    open spec fn spec_valid(v: u32) -> bool {
        (v as nat) < pow2(18)
    }

    open spec fn spec_to(v: u32) -> u64 {
        v as u64
    }

    open spec fn spec_from(v: u64) -> u32 {
        v as u32
    }

    proof fn lemma_bits_bounds() {
    }

    proof fn lemma_to_in_range(v: u32) {
    }

    proof fn lemma_round_trip(v: u32) {
    }

    fn bits() -> usize {
        18
    }

    fn from_u64(v: u64) -> u32 {
        v as u32
    }

    fn to_u64(v: u32) -> u64 {
        v as u64
    }
}

/// The 19-bit unsigned specifier.
pub struct B19 {}

impl Specifier for B19 {
    type DataType = u32;

    open spec fn spec_bits() -> nat {
        19
    }

    open spec fn spec_valid(v: u32) -> bool {
        (v as nat) < pow2(19)
    }

    open spec fn spec_to(v: u32) -> u64 {
        v as u64
    }

    open spec fn spec_from(v: u64) -> u32 {
        v as u32
    }

    proof fn lemma_bits_bounds() {
    }

    proof fn lemma_to_in_range(v: u32) {
    }

    proof fn lemma_round_trip(v: u32) {
    }

    fn bits() -> usize {
        19
    }

    fn from_u64(v: u64) -> u32 {
        v as u32
    }

    fn to_u64(v: u32) -> u64 {
        v as u64
    }
}

/// The 20-bit unsigned specifier.
pub struct B20 {}

impl Specifier for B20 {
    type DataType = u32;

    open spec fn spec_bits() -> nat {
        20
    }

    open spec fn spec_valid(v: u32) -> bool {
        (v as nat) < pow2(20)
    }

    open spec fn spec_to(v: u32) -> u64 {
        v as u64
    }

    open spec fn spec_from(v: u64) -> u32 {
        v as u32
    }

    proof fn lemma_bits_bounds() {
    }

    proof fn lemma_to_in_range(v: u32) {
    }

    proof fn lemma_round_trip(v: u32) {
    }

    fn bits() -> usize {
        20
    }

    fn from_u64(v: u64) -> u32 {
        v as u32
    }

    fn to_u64(v: u32) -> u64 {
        v as u64
    }
}

/// The 21-bit unsigned specifier.
pub struct B21 {}

impl Specifier for B21 {
    type DataType = u32;

    open spec fn spec_bits() -> nat {
        21
    }

    open spec fn spec_valid(v: u32) -> bool {
        (v as nat) < pow2(21)
    }

    open spec fn spec_to(v: u32) -> u64 {
        v as u64
    }

    open spec fn spec_from(v: u64) -> u32 {
        v as u32
    }

    proof fn lemma_bits_bounds() {
    }

    proof fn lemma_to_in_range(v: u32) {
    }

    proof fn lemma_round_trip(v: u32) {
    }

    fn bits() -> usize {
        21
    }

    fn from_u64(v: u64) -> u32 {
        v as u32
    }

    fn to_u64(v: u32) -> u64 {
        v as u64
    }
}

/// The 22-bit unsigned specifier.
pub struct B22 {}

impl Specifier for B22 {
    type DataType = u32;

    open spec fn spec_bits() -> nat {
        22
    }

    open spec fn spec_valid(v: u32) -> bool {
        (v as nat) < pow2(22)
    }

    open spec fn spec_to(v: u32) -> u64 {
        v as u64
    }

    open spec fn spec_from(v: u64) -> u32 {
        v as u32
    }

    proof fn lemma_bits_bounds() {
    }

    proof fn lemma_to_in_range(v: u32) {
    }

    proof fn lemma_round_trip(v: u32) {
    }

    fn bits() -> usize {
        22
    }

    fn from_u64(v: u64) -> u32 {
        v as u32
    }

    fn to_u64(v: u32) -> u64 {
        v as u64
    }
}

/// The 23-bit unsigned specifier.
pub struct B23 {}

impl Specifier for B23 {
    type DataType = u32;

    open spec fn spec_bits() -> nat {
        23
    }

    open spec fn spec_valid(v: u32) -> bool {
        (v as nat) < pow2(23)
    }

    open spec fn spec_to(v: u32) -> u64 {
        v as u64
    }

    open spec fn spec_from(v: u64) -> u32 {
        v as u32
    }

    proof fn lemma_bits_bounds() {
    }

    proof fn lemma_to_in_range(v: u32) {
    }

    proof fn lemma_round_trip(v: u32) {
    }

    fn bits() -> usize {
        23
    }

    fn from_u64(v: u64) -> u32 {
        v as u32
    }

    fn to_u64(v: u32) -> u64 {
        v as u64
    }
}

/// The 24-bit unsigned specifier.
pub struct B24 {}

impl Specifier for B24 {
    type DataType = u32;

    open spec fn spec_bits() -> nat {
        24
    }

    open spec fn spec_valid(v: u32) -> bool {
        (v as nat) < pow2(24)
    }

    open spec fn spec_to(v: u32) -> u64 {
        v as u64
    }

    open spec fn spec_from(v: u64) -> u32 {
        v as u32
    }

    proof fn lemma_bits_bounds() {
    }

    proof fn lemma_to_in_range(v: u32) {
    }

    proof fn lemma_round_trip(v: u32) {
    }

    fn bits() -> usize {
        24
    }

    fn from_u64(v: u64) -> u32 {
        v as u32
    }

    fn to_u64(v: u32) -> u64 {
        v as u64
    }
}

/// The 25-bit unsigned specifier.
pub struct B25 {}

impl Specifier for B25 {
    type DataType = u32;

    open spec fn spec_bits() -> nat {
        25
    }

    open spec fn spec_valid(v: u32) -> bool {
        (v as nat) < pow2(25)
    }

    open spec fn spec_to(v: u32) -> u64 {
        v as u64
    }

    open spec fn spec_from(v: u64) -> u32 {
        v as u32
    }

    proof fn lemma_bits_bounds() {
    }

    proof fn lemma_to_in_range(v: u32) {
    }

    proof fn lemma_round_trip(v: u32) {
    }

    fn bits() -> usize {
        25
    }

    fn from_u64(v: u64) -> u32 {
        v as u32
    }

    fn to_u64(v: u32) -> u64 {
        v as u64
    }
}

/// The 26-bit unsigned specifier.
pub struct B26 {}

impl Specifier for B26 {
    type DataType = u32;

    open spec fn spec_bits() -> nat {
        26
    }

    open spec fn spec_valid(v: u32) -> bool {
        (v as nat) < pow2(26)
    }

    open spec fn spec_to(v: u32) -> u64 {
        v as u64
    }

    open spec fn spec_from(v: u64) -> u32 {
        v as u32
    }

    proof fn lemma_bits_bounds() {
    }

    proof fn lemma_to_in_range(v: u32) {
    }

    proof fn lemma_round_trip(v: u32) {
    }

    fn bits() -> usize {
        26
    }

    fn from_u64(v: u64) -> u32 {
        v as u32
    }

    fn to_u64(v: u32) -> u64 {
        v as u64
    }
}

/// The 27-bit unsigned specifier.
pub struct B27 {}

impl Specifier for B27 {
    type DataType = u32;

    open spec fn spec_bits() -> nat {
        27
    }

    open spec fn spec_valid(v: u32) -> bool {
        (v as nat) < pow2(27)
    }

    open spec fn spec_to(v: u32) -> u64 {
        v as u64
    }

    open spec fn spec_from(v: u64) -> u32 {
        v as u32
    }

    proof fn lemma_bits_bounds() {
    }

    proof fn lemma_to_in_range(v: u32) {
    }

    proof fn lemma_round_trip(v: u32) {
    }

    fn bits() -> usize {
        27
    }

    fn from_u64(v: u64) -> u32 {
        v as u32
    }

    fn to_u64(v: u32) -> u64 {
        v as u64
    }
}

/// The 28-bit unsigned specifier.
pub struct B28 {}

impl Specifier for B28 {
    type DataType = u32;

    open spec fn spec_bits() -> nat {
        28
    }

    open spec fn spec_valid(v: u32) -> bool {
        (v as nat) < pow2(28)
    }

    open spec fn spec_to(v: u32) -> u64 {
        v as u64
    }

    open spec fn spec_from(v: u64) -> u32 {
        v as u32
    }

    proof fn lemma_bits_bounds() {
    }

    proof fn lemma_to_in_range(v: u32) {
    }

    proof fn lemma_round_trip(v: u32) {
    }

    fn bits() -> usize {
        28
    }

    fn from_u64(v: u64) -> u32 {
        v as u32
    }

    fn to_u64(v: u32) -> u64 {
        v as u64
    }
}

/// The 29-bit unsigned specifier.
pub struct B29 {}

impl Specifier for B29 {
    type DataType = u32;

    open spec fn spec_bits() -> nat {
        29
    }

    open spec fn spec_valid(v: u32) -> bool {
        (v as nat) < pow2(29)
    }

    open spec fn spec_to(v: u32) -> u64 {
        v as u64
    }

    open spec fn spec_from(v: u64) -> u32 {
        v as u32
    }

    proof fn lemma_bits_bounds() {
    }

    proof fn lemma_to_in_range(v: u32) {
    }

    proof fn lemma_round_trip(v: u32) {
    }

    fn bits() -> usize {
        29
    }

    fn from_u64(v: u64) -> u32 {
        v as u32
    }

    fn to_u64(v: u32) -> u64 {
        v as u64
    }
}

/// The 30-bit unsigned specifier.
pub struct B30 {}

impl Specifier for B30 {
    type DataType = u32;

    open spec fn spec_bits() -> nat {
        30
    }

    open spec fn spec_valid(v: u32) -> bool {
        (v as nat) < pow2(30)
    }

    open spec fn spec_to(v: u32) -> u64 {
        v as u64
    }

    open spec fn spec_from(v: u64) -> u32 {
        v as u32
    }

    proof fn lemma_bits_bounds() {
    }

    proof fn lemma_to_in_range(v: u32) {
    }

    proof fn lemma_round_trip(v: u32) {
    }

    fn bits() -> usize {
        30
    }

    fn from_u64(v: u64) -> u32 {
        v as u32
    }

    fn to_u64(v: u32) -> u64 {
        v as u64
    }
}

/// The 31-bit unsigned specifier.
pub struct B31 {}

impl Specifier for B31 {
    type DataType = u32;

    open spec fn spec_bits() -> nat {
        31
    }

    open spec fn spec_valid(v: u32) -> bool {
        (v as nat) < pow2(31)
    }

    open spec fn spec_to(v: u32) -> u64 {
        v as u64
    }

    open spec fn spec_from(v: u64) -> u32 {
        v as u32
    }

    proof fn lemma_bits_bounds() {
    }

    proof fn lemma_to_in_range(v: u32) {
    }

    proof fn lemma_round_trip(v: u32) {
    }

    fn bits() -> usize {
        31
    }

    fn from_u64(v: u64) -> u32 {
        v as u32
    }

    fn to_u64(v: u32) -> u64 {
        v as u64
    }
}

/// The 32-bit unsigned specifier.
pub struct B32 {}

impl Specifier for B32 {
    type DataType = u32;

    open spec fn spec_bits() -> nat {
        32
    }

    open spec fn spec_valid(v: u32) -> bool {
        (v as nat) < pow2(32)
    }

    open spec fn spec_to(v: u32) -> u64 {
        v as u64
    }

    open spec fn spec_from(v: u64) -> u32 {
        v as u32
    }

    proof fn lemma_bits_bounds() {
    }

    proof fn lemma_to_in_range(v: u32) {
    }

    proof fn lemma_round_trip(v: u32) {
    }

    fn bits() -> usize {
        32
    }

    fn from_u64(v: u64) -> u32 {
        v as u32
    }

    fn to_u64(v: u32) -> u64 {
        v as u64
    }
}

/// The 33-bit unsigned specifier.
pub struct B33 {}

impl Specifier for B33 {
    type DataType = u64;

    open spec fn spec_bits() -> nat {
        33
    }

    open spec fn spec_valid(v: u64) -> bool {
        (v as nat) < pow2(33)
    }

    open spec fn spec_to(v: u64) -> u64 {
        v
    }

    open spec fn spec_from(v: u64) -> u64 {
        v
    }

    proof fn lemma_bits_bounds() {
    }

    proof fn lemma_to_in_range(v: u64) {
    }

    proof fn lemma_round_trip(v: u64) {
    }

    fn bits() -> usize {
        33
    }

    fn from_u64(v: u64) -> u64 {
        v
    }

    fn to_u64(v: u64) -> u64 {
        v
    }
}

/// The 34-bit unsigned specifier.
pub struct B34 {}

impl Specifier for B34 {
    type DataType = u64;

    open spec fn spec_bits() -> nat {
        34
    }

    open spec fn spec_valid(v: u64) -> bool {
        (v as nat) < pow2(34)
    }

    open spec fn spec_to(v: u64) -> u64 {
        v
    }

    open spec fn spec_from(v: u64) -> u64 {
        v
    }

    proof fn lemma_bits_bounds() {
    }

    proof fn lemma_to_in_range(v: u64) {
    }

    proof fn lemma_round_trip(v: u64) {
    }

    fn bits() -> usize {
        34
    }

    fn from_u64(v: u64) -> u64 {
        v
    }

    fn to_u64(v: u64) -> u64 {
        v
    }
}

/// The 35-bit unsigned specifier.
pub struct B35 {}

impl Specifier for B35 {
    type DataType = u64;

    open spec fn spec_bits() -> nat {
        35
    }

    open spec fn spec_valid(v: u64) -> bool {
        (v as nat) < pow2(35)
    }

    open spec fn spec_to(v: u64) -> u64 {
        v
    }

    open spec fn spec_from(v: u64) -> u64 {
        v
    }

    proof fn lemma_bits_bounds() {
    }

    proof fn lemma_to_in_range(v: u64) {
    }

    proof fn lemma_round_trip(v: u64) {
    }

    fn bits() -> usize {
        35
    }

    fn from_u64(v: u64) -> u64 {
        v
    }

    fn to_u64(v: u64) -> u64 {
        v
    }
}

/// The 36-bit unsigned specifier.
pub struct B36 {}

impl Specifier for B36 {
    type DataType = u64;

    open spec fn spec_bits() -> nat {
        36
    }

    open spec fn spec_valid(v: u64) -> bool {
        (v as nat) < pow2(36)
    }

    open spec fn spec_to(v: u64) -> u64 {
        v
    }

    open spec fn spec_from(v: u64) -> u64 {
        v
    }

    proof fn lemma_bits_bounds() {
    }

    proof fn lemma_to_in_range(v: u64) {
    }

    proof fn lemma_round_trip(v: u64) {
    }

    fn bits() -> usize {
        36
    }

    fn from_u64(v: u64) -> u64 {
        v
    }

    fn to_u64(v: u64) -> u64 {
        v
    }
}

/// The 37-bit unsigned specifier.
pub struct B37 {}

impl Specifier for B37 {
    type DataType = u64;

    open spec fn spec_bits() -> nat {
        37
    }

    open spec fn spec_valid(v: u64) -> bool {
        (v as nat) < pow2(37)
    }

    open spec fn spec_to(v: u64) -> u64 {
        v
    }

    open spec fn spec_from(v: u64) -> u64 {
        v
    }

    proof fn lemma_bits_bounds() {
    }

    proof fn lemma_to_in_range(v: u64) {
    }

    proof fn lemma_round_trip(v: u64) {
    }

    fn bits() -> usize {
        37
    }

    fn from_u64(v: u64) -> u64 {
        v
    }

    fn to_u64(v: u64) -> u64 {
        v
    }
}

/// The 38-bit unsigned specifier.
pub struct B38 {}

impl Specifier for B38 {
    type DataType = u64;

    open spec fn spec_bits() -> nat {
        38
    }

    open spec fn spec_valid(v: u64) -> bool {
        (v as nat) < pow2(38)
    }

    open spec fn spec_to(v: u64) -> u64 {
        v
    }

    open spec fn spec_from(v: u64) -> u64 {
        v
    }

    proof fn lemma_bits_bounds() {
    }

    proof fn lemma_to_in_range(v: u64) {
    }

    proof fn lemma_round_trip(v: u64) {
    }

    fn bits() -> usize {
        38
    }

    fn from_u64(v: u64) -> u64 {
        v
    }

    fn to_u64(v: u64) -> u64 {
        v
    }
}

/// The 39-bit unsigned specifier.
pub struct B39 {}

impl Specifier for B39 {
    type DataType = u64;

    open spec fn spec_bits() -> nat {
        39
    }

    open spec fn spec_valid(v: u64) -> bool {
        (v as nat) < pow2(39)
    }

    open spec fn spec_to(v: u64) -> u64 {
        v
    }

    open spec fn spec_from(v: u64) -> u64 {
        v
    }

    proof fn lemma_bits_bounds() {
    }

    proof fn lemma_to_in_range(v: u64) {
    }

    proof fn lemma_round_trip(v: u64) {
    }

    fn bits() -> usize {
        39
    }

    fn from_u64(v: u64) -> u64 {
        v
    }

    fn to_u64(v: u64) -> u64 {
        v
    }
}

/// The 40-bit unsigned specifier.
pub struct B40 {}

impl Specifier for B40 {
    type DataType = u64;

    open spec fn spec_bits() -> nat {
        40
    }

    open spec fn spec_valid(v: u64) -> bool {
        (v as nat) < pow2(40)
    }

    open spec fn spec_to(v: u64) -> u64 {
        v
    }

    open spec fn spec_from(v: u64) -> u64 {
        v
    }

    proof fn lemma_bits_bounds() {
    }

    proof fn lemma_to_in_range(v: u64) {
    }

    proof fn lemma_round_trip(v: u64) {
    }

    fn bits() -> usize {
        40
    }

    fn from_u64(v: u64) -> u64 {
        v
    }

    fn to_u64(v: u64) -> u64 {
        v
    }
}

/// The 41-bit unsigned specifier.
pub struct B41 {}

impl Specifier for B41 {
    type DataType = u64;

    open spec fn spec_bits() -> nat {
        41
    }

    open spec fn spec_valid(v: u64) -> bool {
        (v as nat) < pow2(41)
    }

    open spec fn spec_to(v: u64) -> u64 {
        v
    }

    open spec fn spec_from(v: u64) -> u64 {
        v
    }

    proof fn lemma_bits_bounds() {
    }

    proof fn lemma_to_in_range(v: u64) {
    }

    proof fn lemma_round_trip(v: u64) {
    }

    fn bits() -> usize {
        41
    }

    fn from_u64(v: u64) -> u64 {
        v
    }

    fn to_u64(v: u64) -> u64 {
        v
    }
}

/// The 42-bit unsigned specifier.
pub struct B42 {}

impl Specifier for B42 {
    type DataType = u64;

    open spec fn spec_bits() -> nat {
        42
    }

    open spec fn spec_valid(v: u64) -> bool {
        (v as nat) < pow2(42)
    }

    open spec fn spec_to(v: u64) -> u64 {
        v
    }

    open spec fn spec_from(v: u64) -> u64 {
        v
    }

    proof fn lemma_bits_bounds() {
    }

    proof fn lemma_to_in_range(v: u64) {
    }

    proof fn lemma_round_trip(v: u64) {
    }

    fn bits() -> usize {
        42
    }

    fn from_u64(v: u64) -> u64 {
        v
    }

    fn to_u64(v: u64) -> u64 {
        v
    }
}

/// The 43-bit unsigned specifier.
pub struct B43 {}

impl Specifier for B43 {
    type DataType = u64;

    open spec fn spec_bits() -> nat {
        43
    }

    open spec fn spec_valid(v: u64) -> bool {
        (v as nat) < pow2(43)
    }

    open spec fn spec_to(v: u64) -> u64 {
        v
    }

    open spec fn spec_from(v: u64) -> u64 {
        v
    }

    proof fn lemma_bits_bounds() {
    }

    proof fn lemma_to_in_range(v: u64) {
    }

    proof fn lemma_round_trip(v: u64) {
    }

    fn bits() -> usize {
        43
    }

    fn from_u64(v: u64) -> u64 {
        v
    }

    fn to_u64(v: u64) -> u64 {
        v
    }
}

/// The 44-bit unsigned specifier.
pub struct B44 {}

impl Specifier for B44 {
    type DataType = u64;

    open spec fn spec_bits() -> nat {
        44
    }

    open spec fn spec_valid(v: u64) -> bool {
        (v as nat) < pow2(44)
    }

    open spec fn spec_to(v: u64) -> u64 {
        v
    }

    open spec fn spec_from(v: u64) -> u64 {
        v
    }

    proof fn lemma_bits_bounds() {
    }

    proof fn lemma_to_in_range(v: u64) {
    }

    proof fn lemma_round_trip(v: u64) {
    }

    fn bits() -> usize {
        44
    }

    fn from_u64(v: u64) -> u64 {
        v
    }

    fn to_u64(v: u64) -> u64 {
        v
    }
}

/// The 45-bit unsigned specifier.
pub struct B45 {}

impl Specifier for B45 {
    type DataType = u64;

    open spec fn spec_bits() -> nat {
        45
    }

    open spec fn spec_valid(v: u64) -> bool {
        (v as nat) < pow2(45)
    }

    open spec fn spec_to(v: u64) -> u64 {
        v
    }

    open spec fn spec_from(v: u64) -> u64 {
        v
    }

    proof fn lemma_bits_bounds() {
    }

    proof fn lemma_to_in_range(v: u64) {
    }

    proof fn lemma_round_trip(v: u64) {
    }

    fn bits() -> usize {
        45
    }

    fn from_u64(v: u64) -> u64 {
        v
    }

    fn to_u64(v: u64) -> u64 {
        v
    }
}

/// The 46-bit unsigned specifier.
pub struct B46 {}

impl Specifier for B46 {
    type DataType = u64;

    open spec fn spec_bits() -> nat {
        46
    }

    open spec fn spec_valid(v: u64) -> bool {
        (v as nat) < pow2(46)
    }

    open spec fn spec_to(v: u64) -> u64 {
        v
    }

    open spec fn spec_from(v: u64) -> u64 {
        v
    }

    proof fn lemma_bits_bounds() {
    }

    proof fn lemma_to_in_range(v: u64) {
    }

    proof fn lemma_round_trip(v: u64) {
    }

    fn bits() -> usize {
        46
    }

    fn from_u64(v: u64) -> u64 {
        v
    }

    fn to_u64(v: u64) -> u64 {
        v
    }
}

/// The 47-bit unsigned specifier.
pub struct B47 {}

impl Specifier for B47 {
    type DataType = u64;

    open spec fn spec_bits() -> nat {
        47
    }

    open spec fn spec_valid(v: u64) -> bool {
        (v as nat) < pow2(47)
    }

    open spec fn spec_to(v: u64) -> u64 {
        v
    }

    open spec fn spec_from(v: u64) -> u64 {
        v
    }

    proof fn lemma_bits_bounds() {
    }

    proof fn lemma_to_in_range(v: u64) {
    }

    proof fn lemma_round_trip(v: u64) {
    }

    fn bits() -> usize {
        47
    }

    fn from_u64(v: u64) -> u64 {
        v
    }

    fn to_u64(v: u64) -> u64 {
        v
    }
}

/// The 48-bit unsigned specifier.
pub struct B48 {}

impl Specifier for B48 {
    type DataType = u64;

    open spec fn spec_bits() -> nat {
        48
    }

    open spec fn spec_valid(v: u64) -> bool {
        (v as nat) < pow2(48)
    }

    open spec fn spec_to(v: u64) -> u64 {
        v
    }

    open spec fn spec_from(v: u64) -> u64 {
        v
    }

    proof fn lemma_bits_bounds() {
    }

    proof fn lemma_to_in_range(v: u64) {
    }

    proof fn lemma_round_trip(v: u64) {
    }

    fn bits() -> usize {
        48
    }

    fn from_u64(v: u64) -> u64 {
        v
    }

    fn to_u64(v: u64) -> u64 {
        v
    }
}

/// The 49-bit unsigned specifier.
pub struct B49 {}

impl Specifier for B49 {
    type DataType = u64;

    open spec fn spec_bits() -> nat {
        49
    }

    open spec fn spec_valid(v: u64) -> bool {
        (v as nat) < pow2(49)
    }

    open spec fn spec_to(v: u64) -> u64 {
        v
    }

    open spec fn spec_from(v: u64) -> u64 {
        v
    }

    proof fn lemma_bits_bounds() {
    }

    proof fn lemma_to_in_range(v: u64) {
    }

    proof fn lemma_round_trip(v: u64) {
    }

    fn bits() -> usize {
        49
    }

    fn from_u64(v: u64) -> u64 {
        v
    }

    fn to_u64(v: u64) -> u64 {
        v
    }
}

/// The 50-bit unsigned specifier.
pub struct B50 {}

impl Specifier for B50 {
    type DataType = u64;

    open spec fn spec_bits() -> nat {
        50
    }

    open spec fn spec_valid(v: u64) -> bool {
        (v as nat) < pow2(50)
    }

    open spec fn spec_to(v: u64) -> u64 {
        v
    }

    open spec fn spec_from(v: u64) -> u64 {
        v
    }

    proof fn lemma_bits_bounds() {
    }

    proof fn lemma_to_in_range(v: u64) {
    }

    proof fn lemma_round_trip(v: u64) {
    }

    fn bits() -> usize {
        50
    }

    fn from_u64(v: u64) -> u64 {
        v
    }

    fn to_u64(v: u64) -> u64 {
        v
    }
}

/// The 51-bit unsigned specifier.
pub struct B51 {}

impl Specifier for B51 {
    type DataType = u64;

    open spec fn spec_bits() -> nat {
        51
    }

    open spec fn spec_valid(v: u64) -> bool {
        (v as nat) < pow2(51)
    }

    open spec fn spec_to(v: u64) -> u64 {
        v
    }

    open spec fn spec_from(v: u64) -> u64 {
        v
    }

    proof fn lemma_bits_bounds() {
    }

    proof fn lemma_to_in_range(v: u64) {
    }

    proof fn lemma_round_trip(v: u64) {
    }

    fn bits() -> usize {
        51
    }

    fn from_u64(v: u64) -> u64 {
        v
    }

    fn to_u64(v: u64) -> u64 {
        v
    }
}

/// The 52-bit unsigned specifier.
pub struct B52 {}

impl Specifier for B52 {
    type DataType = u64;

    open spec fn spec_bits() -> nat {
        52
    }

    open spec fn spec_valid(v: u64) -> bool {
        (v as nat) < pow2(52)
    }

    open spec fn spec_to(v: u64) -> u64 {
        v
    }

    open spec fn spec_from(v: u64) -> u64 {
        v
    }

    proof fn lemma_bits_bounds() {
    }

    proof fn lemma_to_in_range(v: u64) {
    }

    proof fn lemma_round_trip(v: u64) {
    }

    fn bits() -> usize {
        52
    }

    fn from_u64(v: u64) -> u64 {
        v
    }

    fn to_u64(v: u64) -> u64 {
        v
    }
}

/// The 53-bit unsigned specifier.
pub struct B53 {}

impl Specifier for B53 {
    type DataType = u64;

    open spec fn spec_bits() -> nat {
        53
    }

    open spec fn spec_valid(v: u64) -> bool {
        (v as nat) < pow2(53)
    }

    open spec fn spec_to(v: u64) -> u64 {
        v
    }

    open spec fn spec_from(v: u64) -> u64 {
        v
    }

    proof fn lemma_bits_bounds() {
    }

    proof fn lemma_to_in_range(v: u64) {
    }

    proof fn lemma_round_trip(v: u64) {
    }

    fn bits() -> usize {
        53
    }

    fn from_u64(v: u64) -> u64 {
        v
    }

    fn to_u64(v: u64) -> u64 {
        v
    }
}

/// The 54-bit unsigned specifier.
pub struct B54 {}

impl Specifier for B54 {
    type DataType = u64;

    open spec fn spec_bits() -> nat {
        54
    }

    open spec fn spec_valid(v: u64) -> bool {
        (v as nat) < pow2(54)
    }

    open spec fn spec_to(v: u64) -> u64 {
        v
    }

    open spec fn spec_from(v: u64) -> u64 {
        v
    }

    proof fn lemma_bits_bounds() {
    }

    proof fn lemma_to_in_range(v: u64) {
    }

    proof fn lemma_round_trip(v: u64) {
    }

    fn bits() -> usize {
        54
    }

    fn from_u64(v: u64) -> u64 {
        v
    }

    fn to_u64(v: u64) -> u64 {
        v
    }
}

/// The 55-bit unsigned specifier.
pub struct B55 {}

impl Specifier for B55 {
    type DataType = u64;

    open spec fn spec_bits() -> nat {
        55
    }

    open spec fn spec_valid(v: u64) -> bool {
        (v as nat) < pow2(55)
    }

    open spec fn spec_to(v: u64) -> u64 {
        v
    }

    open spec fn spec_from(v: u64) -> u64 {
        v
    }

    proof fn lemma_bits_bounds() {
    }

    proof fn lemma_to_in_range(v: u64) {
    }

    proof fn lemma_round_trip(v: u64) {
    }

    fn bits() -> usize {
        55
    }

    fn from_u64(v: u64) -> u64 {
        v
    }

    fn to_u64(v: u64) -> u64 {
        v
    }
}

/// The 56-bit unsigned specifier.
pub struct B56 {}

impl Specifier for B56 {
    type DataType = u64;

    open spec fn spec_bits() -> nat {
        56
    }

    open spec fn spec_valid(v: u64) -> bool {
        (v as nat) < pow2(56)
    }

    open spec fn spec_to(v: u64) -> u64 {
        v
    }

    open spec fn spec_from(v: u64) -> u64 {
        v
    }

    proof fn lemma_bits_bounds() {
    }

    proof fn lemma_to_in_range(v: u64) {
    }

    proof fn lemma_round_trip(v: u64) {
    }

    fn bits() -> usize {
        56
    }

    fn from_u64(v: u64) -> u64 {
        v
    }

    fn to_u64(v: u64) -> u64 {
        v
    }
}

/// The 57-bit unsigned specifier.
pub struct B57 {}

impl Specifier for B57 {
    type DataType = u64;

    open spec fn spec_bits() -> nat {
        57
    }

    open spec fn spec_valid(v: u64) -> bool {
        (v as nat) < pow2(57)
    }

    open spec fn spec_to(v: u64) -> u64 {
        v
    }

    open spec fn spec_from(v: u64) -> u64 {
        v
    }

    proof fn lemma_bits_bounds() {
    }

    proof fn lemma_to_in_range(v: u64) {
    }

    proof fn lemma_round_trip(v: u64) {
    }

    fn bits() -> usize {
        57
    }

    fn from_u64(v: u64) -> u64 {
        v
    }

    fn to_u64(v: u64) -> u64 {
        v
    }
}

/// The 58-bit unsigned specifier.
pub struct B58 {}

impl Specifier for B58 {
    type DataType = u64;

    open spec fn spec_bits() -> nat {
        58
    }

    open spec fn spec_valid(v: u64) -> bool {
        (v as nat) < pow2(58)
    }

    open spec fn spec_to(v: u64) -> u64 {
        v
    }

    open spec fn spec_from(v: u64) -> u64 {
        v
    }

    proof fn lemma_bits_bounds() {
    }

    proof fn lemma_to_in_range(v: u64) {
    }

    proof fn lemma_round_trip(v: u64) {
    }

    fn bits() -> usize {
        58
    }

    fn from_u64(v: u64) -> u64 {
        v
    }

    fn to_u64(v: u64) -> u64 {
        v
    }
}

/// The 59-bit unsigned specifier.
pub struct B59 {}

impl Specifier for B59 {
    type DataType = u64;

    open spec fn spec_bits() -> nat {
        59
    }

    open spec fn spec_valid(v: u64) -> bool {
        (v as nat) < pow2(59)
    }

    open spec fn spec_to(v: u64) -> u64 {
        v
    }

    open spec fn spec_from(v: u64) -> u64 {
        v
    }

    proof fn lemma_bits_bounds() {
    }

    proof fn lemma_to_in_range(v: u64) {
    }

    proof fn lemma_round_trip(v: u64) {
    }

    fn bits() -> usize {
        59
    }

    fn from_u64(v: u64) -> u64 {
        v
    }

    fn to_u64(v: u64) -> u64 {
        v
    }
}

/// The 60-bit unsigned specifier.
pub struct B60 {}

impl Specifier for B60 {
    type DataType = u64;

    open spec fn spec_bits() -> nat {
        60
    }

    open spec fn spec_valid(v: u64) -> bool {
        (v as nat) < pow2(60)
    }

    open spec fn spec_to(v: u64) -> u64 {
        v
    }

    open spec fn spec_from(v: u64) -> u64 {
        v
    }

    proof fn lemma_bits_bounds() {
    }

    proof fn lemma_to_in_range(v: u64) {
    }

    proof fn lemma_round_trip(v: u64) {
    }

    fn bits() -> usize {
        60
    }

    fn from_u64(v: u64) -> u64 {
        v
    }

    fn to_u64(v: u64) -> u64 {
        v
    }
}

/// The 61-bit unsigned specifier.
pub struct B61 {}

impl Specifier for B61 {
    type DataType = u64;

    open spec fn spec_bits() -> nat {
        61
    }

    open spec fn spec_valid(v: u64) -> bool {
        (v as nat) < pow2(61)
    }

    open spec fn spec_to(v: u64) -> u64 {
        v
    }

    open spec fn spec_from(v: u64) -> u64 {
        v
    }

    proof fn lemma_bits_bounds() {
    }

    proof fn lemma_to_in_range(v: u64) {
    }

    proof fn lemma_round_trip(v: u64) {
    }

    fn bits() -> usize {
        61
    }

    fn from_u64(v: u64) -> u64 {
        v
    }

    fn to_u64(v: u64) -> u64 {
        v
    }
}

/// The 62-bit unsigned specifier.
pub struct B62 {}

impl Specifier for B62 {
    type DataType = u64;

    open spec fn spec_bits() -> nat {
        62
    }

    open spec fn spec_valid(v: u64) -> bool {
        (v as nat) < pow2(62)
    }

    open spec fn spec_to(v: u64) -> u64 {
        v
    }

    open spec fn spec_from(v: u64) -> u64 {
        v
    }

    proof fn lemma_bits_bounds() {
    }

    proof fn lemma_to_in_range(v: u64) {
    }

    proof fn lemma_round_trip(v: u64) {
    }

    fn bits() -> usize {
        62
    }

    fn from_u64(v: u64) -> u64 {
        v
    }

    fn to_u64(v: u64) -> u64 {
        v
    }
}

/// The 63-bit unsigned specifier.
pub struct B63 {}

impl Specifier for B63 {
    type DataType = u64;

    open spec fn spec_bits() -> nat {
        63
    }

    open spec fn spec_valid(v: u64) -> bool {
        (v as nat) < pow2(63)
    }

    open spec fn spec_to(v: u64) -> u64 {
        v
    }

    open spec fn spec_from(v: u64) -> u64 {
        v
    }

    proof fn lemma_bits_bounds() {
    }

    proof fn lemma_to_in_range(v: u64) {
    }

    proof fn lemma_round_trip(v: u64) {
    }

    fn bits() -> usize {
        63
    }

    fn from_u64(v: u64) -> u64 {
        v
    }

    fn to_u64(v: u64) -> u64 {
        v
    }
}

/// The 64-bit unsigned specifier.
pub struct B64 {}

impl Specifier for B64 {
    type DataType = u64;

    open spec fn spec_bits() -> nat {
        64
    }

    open spec fn spec_valid(v: u64) -> bool {
        (v as nat) < pow2(64)
    }

    open spec fn spec_to(v: u64) -> u64 {
        v
    }

    open spec fn spec_from(v: u64) -> u64 {
        v
    }

    proof fn lemma_bits_bounds() {
    }

    proof fn lemma_to_in_range(v: u64) {
    }

    proof fn lemma_round_trip(v: u64) {
    }

    fn bits() -> usize {
        64
    }

    fn from_u64(v: u64) -> u64 {
        v
    }

    fn to_u64(v: u64) -> u64 {
        v
    }
}

} // verus!
