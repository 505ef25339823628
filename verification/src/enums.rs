//! Validation of enumerations used as specifiers.
//!
//! An enumeration may serve as a specifier only if its variant count is an
//! exact power of two; the derived width is the base-two logarithm of that
//! count, and every variant's discriminant must fit in it, that is, be at
//! most `count - 1`.  Discriminants need not be sequential, and duplicates
//! are deliberately not rejected.  The checks are purely static: they touch
//! no buffer and run before the enclosing layout is accepted.

use vstd::prelude::*;

verus! {

use vstd::arithmetic::power2::lemma2_to64;
use vstd::arithmetic::power2::lemma_pow2_pos;
use vstd::arithmetic::power2::lemma_pow2_strictly_increases;
use vstd::arithmetic::power2::lemma_pow2_unfold;
use vstd::arithmetic::power2::pow2;
use vstd::bits::lemma_u64_pow2_no_overflow;
use vstd::bits::lemma_u64_shl_is_mul;
use vstd::bits::lemma_u64_shr_is_div;

/// How many bits it takes to hold `v`: the position of its highest set bit,
/// and 0 for 0.
pub open spec fn spec_bit_len(v: nat) -> nat
    decreases v,
{
    if v == 0 {
        0
    } else {
        1 + spec_bit_len(v / 2)
    }
}

/// Whether `n` is an exact power of two.
pub open spec fn is_power_of_two(n: nat) -> bool
    decreases n,
{
    if n == 0 {
        false
    } else if n == 1 {
        true
    } else {
        n % 2 == 0 && is_power_of_two(n / 2)
    }
}

/// `spec_bit_len(v)` bits suffice for `v`, and one bit fewer does not.
pub proof fn lemma_bit_len_bounds(v: nat)
    ensures
        v < pow2(spec_bit_len(v)),
        v > 0 ==> pow2((spec_bit_len(v) - 1) as nat) <= v,
    decreases v,
{
    if v == 0 {
        lemma2_to64();
    } else {
        lemma_bit_len_bounds(v / 2);
        let l2 = spec_bit_len(v / 2);
        lemma_pow2_unfold((l2 + 1) as nat);
        if v / 2 == 0 {
            lemma2_to64();
        } else {
            lemma_pow2_unfold(l2);
        }
    }
}

/// A value below `pow2(b)` needs at most `b` bits.
pub proof fn lemma_bit_len_le(v: nat, b: nat)
    requires
        v < pow2(b),
    ensures
        spec_bit_len(v) <= b,
    decreases v,
{
    if v > 0 {
        if b == 0 {
            lemma2_to64();
        } else {
            lemma_pow2_unfold(b);
            lemma_bit_len_le(v / 2, (b - 1) as nat);
        }
    }
}

/// Every power of two satisfies `is_power_of_two`.
pub proof fn lemma_pow2_is_power_of_two(b: nat)
    ensures
        is_power_of_two(pow2(b)),
    decreases b,
{
    if b == 0 {
        lemma2_to64();
    } else {
        lemma_pow2_is_power_of_two((b - 1) as nat);
        lemma_pow2_unfold(b);
        lemma_pow2_pos((b - 1) as nat);
    }
}

/// A power of two `n` is exactly `pow2` of the bit length of `n - 1`.
pub proof fn lemma_power_of_two_bit_len(n: nat)
    requires
        is_power_of_two(n),
    ensures
        pow2(spec_bit_len((n - 1) as nat)) == n,
    decreases n,
{
    if n == 1 {
        lemma2_to64();
    } else {
        let m = n / 2;
        lemma_power_of_two_bit_len(m);
        assert((n - 1) as nat / 2 == m - 1);
        assert(spec_bit_len((n - 1) as nat) == 1 + spec_bit_len((m - 1) as nat));
        lemma_pow2_unfold((1 + spec_bit_len((m - 1) as nat)) as nat);
    }
}

/// The number of bits needed to hold `v`: 0 for 0, else one more than the
/// position of the highest set bit.
pub fn bits_to_hold_val(v: u64) -> (r: usize)
    ensures
        r == spec_bit_len(v as nat),
        r <= 64,
        (v as nat) < pow2(r as nat),
        v > 0 ==> pow2((r - 1) as nat) <= v as nat,
{
    proof {
        lemma2_to64();
        lemma_bit_len_le(v as nat, 64);
        lemma_bit_len_bounds(v as nat);
    }
    let mut bits: usize = 0;
    let mut x: u64 = v;
    while x > 0
        invariant
            spec_bit_len(v as nat) == bits + spec_bit_len(x as nat),
            spec_bit_len(v as nat) <= 64,
        decreases x,
    {
        proof {
            lemma_u64_shr_is_div(x, 1);
            lemma2_to64();
            assert(spec_bit_len(x as nat) >= 1);
        }
        bits = bits + 1;
        x = x >> 1;
    }
    bits
}

/// One variant of an enumeration offered as a specifier: its name and the
/// discriminant value that identifies it.
pub struct EnumVariant {
    pub name: String,
    pub discriminant: u64,
}

/// Why an enumeration cannot serve as a specifier.
pub enum SpecifierError {
    /// The variant count, which is not an exact power of two.
    NotPowerOfTwo(usize),
    /// A variant whose discriminant exceeds the given maximum: its name, the
    /// discriminant, and the maximum `count - 1`.
    DiscriminantOutOfRange(String, u64, u64),
}

/// Checks an enumeration offered as a specifier: the variant count must be
/// an exact power of two, and every discriminant must be at most
/// `count - 1`.  On success returns the derived width, the base-two
/// logarithm of the count.  Variants are examined in order and the first
/// out-of-range discriminant is reported.
pub fn validate_enum_specifier(variants: &Vec<EnumVariant>) -> (r: Result<
    usize,
    SpecifierError,
>)
    requires
        variants@.len() >= 1,
    ensures
        match r {
            Ok(w) => {
                &&& is_power_of_two(variants@.len())
                &&& pow2(w as nat) == variants@.len()
                &&& forall|i: int|
                    0 <= i < variants@.len() ==> (#[trigger] variants@[i].discriminant as nat)
                        < variants@.len()
            },
            Err(SpecifierError::NotPowerOfTwo(n)) => {
                &&& n == variants@.len()
                &&& !is_power_of_two(variants@.len())
            },
            Err(SpecifierError::DiscriminantOutOfRange(name, value, max)) => {
                &&& is_power_of_two(variants@.len())
                &&& max as nat == variants@.len() - 1
                &&& exists|i: int|
                    0 <= i < variants@.len() && (#[trigger] variants@[i].discriminant) == value
                        && variants@[i].name@ == name@ && value as nat >= variants@.len() && (
                    forall|j: int|
                        0 <= j < i ==> (#[trigger] variants@[j].discriminant as nat)
                            < variants@.len())
            },
        },
{
    let count: usize = variants.len();
    let max_val: u64 = (count - 1) as u64;
    let bits: usize = bits_to_hold_val(max_val);
    if bits >= 64 {
        proof {
            lemma2_to64();
            if is_power_of_two(count as nat) {
                lemma_power_of_two_bit_len(count as nat);
                lemma_pow2_strictly_increases(64, spec_bit_len(max_val as nat));
            }
        }
        return Err(SpecifierError::NotPowerOfTwo(count));
    }
    proof {
        lemma_u64_pow2_no_overflow(bits as nat);
        lemma_u64_shl_is_mul(1u64, bits as u64);
        lemma_pow2_pos(bits as nat);
    }
    let p: u64 = 1u64 << (bits as u64);
    if p - 1 != max_val {
        proof {
            if is_power_of_two(count as nat) {
                lemma_power_of_two_bit_len(count as nat);
            }
        }
        return Err(SpecifierError::NotPowerOfTwo(count));
    }
    proof {
        lemma_pow2_is_power_of_two(bits as nat);
    }
    let mut i: usize = 0;
    while i < count
        invariant
            count == variants@.len(),
            i <= count,
            max_val as nat == count - 1,
            is_power_of_two(count as nat),
            pow2(bits as nat) == count as nat,
            forall|j: int|
                0 <= j < i ==> (#[trigger] variants@[j].discriminant as nat) < variants@.len(),
        decreases count - i,
    {
        let d: u64 = variants[i].discriminant;
        if d > max_val {
            let name = variants[i].name.clone();
            return Err(SpecifierError::DiscriminantOutOfRange(name, d, max_val));
        }
        i = i + 1;
    }
    Ok(bits)
}

} // verus!
