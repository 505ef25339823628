//! The mathematical model of a packed bit buffer.
//!
//! A buffer is a `Seq<u8>`; a bit position is an absolute index with bit 0
//! the most significant bit of byte 0, and within every byte bit 0 the most
//! significant and bit 7 the least significant.  [`bits_value`] gives the
//! unsigned value of a bit range, first bit most significant; it is the
//! reference the executable codec is proved against.

use vstd::prelude::*;

verus! {

use vstd::arithmetic::div_mod::lemma_breakdown;
use vstd::arithmetic::div_mod::lemma_div_denominator;
use vstd::arithmetic::div_mod::lemma_small_mod;
use vstd::arithmetic::power2::lemma2_to64;
use vstd::arithmetic::power2::lemma_pow2_adds;
use vstd::arithmetic::power2::lemma_pow2_pos;
use vstd::arithmetic::power2::pow2;
use vstd::bits::lemma_u64_shr_is_div;
use vstd::bits::lemma_u8_shr_is_div;

/// Bit `j` of one byte, most-significant first: bit 0 is the byte's most
/// significant bit, bit 7 its least significant.
pub open spec fn byte_bit(b: u8, j: u8) -> bool
    recommends
        j < 8,
{
    ((b >> ((7 - j) as u8)) & 1) == 1
}

/// Bit `i` of a byte buffer, absolute and most-significant first: bit 0 is
/// the most significant bit of byte 0.
pub open spec fn bit_at(d: Seq<u8>, i: nat) -> bool
    recommends
        i < d.len() * 8,
{
    byte_bit(d[(i / 8) as int], (i % 8) as u8)
}

/// Bit `k` of the `w`-bit value `val`, counted most-significant first: bit 0
/// is the most significant of the `w` low bits of `val`.
pub open spec fn val_bit(val: u64, w: nat, k: nat) -> bool
    recommends
        k < w <= 64,
{
    ((val >> ((w - 1 - k) as u64)) & 1) == 1
}

/// The unsigned value of the `w` bits of `d` starting at absolute bit
/// `start`, the first bit most significant.
pub open spec fn bits_value(d: Seq<u8>, start: nat, w: nat) -> nat
    recommends
        start + w <= d.len() * 8,
    decreases w,
{
    if w == 0 {
        0
    } else {
        2 * bits_value(d, start, (w - 1) as nat) + (if bit_at(d, (start + w - 1) as nat) {
            1nat
        } else {
            0nat
        })
    }
}

/// How many bits of the range `[start, end)` lie strictly below `boundary`.
pub(crate) open spec fn covered(start: nat, end: nat, boundary: nat) -> nat
    recommends
        start <= end,
{
    if boundary <= start {
        0
    } else if boundary >= end {
        (end - start) as nat
    } else {
        (boundary - start) as nat
    }
}

/// A `w`-bit range holds a value below `pow2(w)`.
pub proof fn lemma_bits_value_bound(d: Seq<u8>, start: nat, w: nat)
    ensures
        bits_value(d, start, w) < pow2(w),
    decreases w,
{
    if w == 0 {
        lemma2_to64();
    } else {
        lemma_bits_value_bound(d, start, (w - 1) as nat);
        lemma_pow2_adds((w - 1) as nat, 1);
        lemma2_to64();
    }
}

/// Splitting a bit range: the value of `w1 + w2` bits is the value of the
/// first `w1` bits, scaled past `w2` further bits, plus the value of those.
pub proof fn lemma_bits_value_append(d: Seq<u8>, start: nat, w1: nat, w2: nat)
    ensures
        bits_value(d, start, w1 + w2) == bits_value(d, start, w1) * pow2(w2) + bits_value(
            d,
            start + w1,
            w2,
        ),
    decreases w2,
{
    if w2 == 0 {
        lemma2_to64();
        assert(bits_value(d, start + w1, 0) == 0);
        assert(bits_value(d, start, w1) * 1 == bits_value(d, start, w1));
    } else {
        lemma_bits_value_append(d, start, w1, (w2 - 1) as nat);
        lemma_pow2_adds((w2 - 1) as nat, 1);
        lemma2_to64();
        let tail = if bit_at(d, (start + w1 + w2 - 1) as nat) {
            1nat
        } else {
            0nat
        };
        assert(bits_value(d, start, w1 + w2) == 2 * bits_value(d, start, (w1 + w2 - 1) as nat)
            + tail);
        assert(bits_value(d, start, (w1 + w2 - 1) as nat) == bits_value(d, start, w1) * pow2(
            (w2 - 1) as nat,
        ) + bits_value(d, start + w1, (w2 - 1) as nat));
        assert(bits_value(d, start + w1, w2) == 2 * bits_value(d, start + w1, (w2 - 1) as nat)
            + tail);
        assert(2 * (bits_value(d, start, w1) * pow2((w2 - 1) as nat)) == bits_value(d, start, w1)
            * pow2(w2)) by (nonlinear_arith)
            requires
                pow2(w2) == 2 * pow2((w2 - 1) as nat),
        ;
        assert(bits_value(d, start, w1 + w2) == 2 * (bits_value(d, start, w1) * pow2(
            (w2 - 1) as nat,
        ) + bits_value(d, start + w1, (w2 - 1) as nat)) + tail);
        assert(bits_value(d, start, w1 + w2) == bits_value(d, start, w1) * pow2(w2) + (2
            * bits_value(d, start + w1, (w2 - 1) as nat) + tail));
    }
}

/// Composing two right shifts adds the shift amounts.
#[verifier::rlimit(30)]
pub(crate) proof fn lemma_shr_shr(x: u64, a: u64, b: u64)
    by (bit_vector)
    requires
        a + b < 64,
    ensures
        (x >> a) >> b == x >> ((a + b) as u64),
{
}

/// The bits `[bs, be)` of byte `p` of the buffer, read as one range, have the
/// value of that byte with its `8 - be` low bits divided off, reduced modulo
/// `pow2(be - bs)`.
pub proof fn lemma_byte_chunk(d: Seq<u8>, p: nat, bs: nat, be: nat)
    requires
        p < d.len(),
        bs <= be <= 8,
    ensures
        bits_value(d, 8 * p + bs, (be - bs) as nat) == (d[p as int] as nat / pow2(
            (8 - be) as nat,
        )) % pow2((be - bs) as nat),
    decreases be - bs,
{
    let b = d[p as int];
    if bs == be {
        lemma2_to64();
        assert(bits_value(d, 8 * p + bs, 0) == 0);
    } else {
        let c = (be - bs) as nat;
        let x = b as nat / pow2((8 - be) as nat);
        lemma_byte_chunk(d, p, bs, (be - 1) as nat);
        // The last bit of the chunk is bit be - 1 of byte p.
        let i = (8 * p + be - 1) as nat;
        assert(i / 8 == p && i % 8 == be - 1) by (nonlinear_arith)
            requires
                i == 8 * p + be - 1,
                1 <= be <= 8,
        ;
        lemma_u8_shr_is_div(b, (8 - be) as u8);
        let y = b >> ((8 - be) as u8);
        assert((y & 1) == y % 2) by (bit_vector);
        assert(y as nat == x);
        assert(bit_at(d, i) <==> x % 2 == 1);
        // The high part of the chunk is the byte shifted one bit further.
        lemma_pow2_pos((8 - be) as nat);
        lemma_pow2_adds((8 - be) as nat, 1);
        lemma2_to64();
        lemma_div_denominator(b as int, pow2((8 - be) as nat) as int, 2);
        assert(x / 2 == b as nat / pow2((9 - be) as nat));
        // Recombine with the breakdown of a modulus by 2 * pow2(c - 1).
        lemma_pow2_pos((c - 1) as nat);
        lemma_pow2_adds((c - 1) as nat, 1);
        lemma_breakdown(x as int, 2, pow2((c - 1) as nat) as int);
        assert(bits_value(d, 8 * p + bs, c) == 2 * bits_value(d, 8 * p + bs, (c - 1) as nat) + (
        if bit_at(d, i) {
            1nat
        } else {
            0nat
        }));
        assert(x % pow2(c) == 2 * ((x / 2) % pow2((c - 1) as nat)) + x % 2);
    }
}

/// If every bit of the range `[start, start + w)` agrees with the
/// corresponding bit of `val`, the range holds `val` reduced to its `w` low
/// bits.
pub proof fn lemma_bits_value_of_val_bits(d: Seq<u8>, start: nat, w: nat, val: u64)
    requires
        w <= 64,
        forall|k: nat| k < w ==> bit_at(d, (start + k) as nat) == #[trigger] val_bit(val, w, k),
    ensures
        bits_value(d, start, w) == val as nat % pow2(w),
    decreases w,
{
    if w == 0 {
        lemma2_to64();
    } else {
        let val2 = (val / 2) as u64;
        let w2 = (w - 1) as nat;
        lemma_u64_shr_is_div(val, 1);
        lemma2_to64();
        assert(val2 == val >> 1u64);
        assert forall|k: nat| k < w2 implies bit_at(d, (start + k) as nat) == #[trigger] val_bit(
            val2,
            w2,
            k,
        ) by {
            assert(bit_at(d, (start + k) as nat) == val_bit(val, w, k));
            let s = ((w - 2 - k) as nat) as u64;
            lemma_shr_shr(val, 1, s);
            assert(val_bit(val2, w2, k) == (((val2 >> s) & 1) == 1));
            assert(val_bit(val, w, k) == (((val >> ((s + 1) as u64)) & 1) == 1));
        }
        lemma_bits_value_of_val_bits(d, start, w2, val2);
        // The last bit of the range is the lowest of the w low bits of val.
        assert(bit_at(d, (start + w - 1) as nat) == val_bit(val, w, (w - 1) as nat));
        assert(((val >> 0u64) & 1) == val % 2) by (bit_vector);
        assert(val_bit(val, w, (w - 1) as nat) <==> val as nat % 2 == 1);
        lemma_pow2_pos((w - 1) as nat);
        lemma_pow2_adds((w - 1) as nat, 1);
        lemma_breakdown(val as int, 2, pow2((w - 1) as nat) as int);
        assert(bits_value(d, start, w) == 2 * bits_value(d, start, (w - 1) as nat) + (if bit_at(
            d,
            (start + w - 1) as nat,
        ) {
            1nat
        } else {
            0nat
        }));
        assert(val as nat % pow2(w) == 2 * ((val as nat / 2) % pow2((w - 1) as nat)) + val as nat
            % 2);
    }
}

/// Round trip: a buffer whose bits at `[start, start + w)` hold exactly the
/// bits of a `w`-bit value `val`, most significant first, reads back as
/// `val`.  Writing a field and then reading the same range therefore returns
/// the value written, whatever the buffer held before.
pub proof fn lemma_round_trip(d: Seq<u8>, start: nat, w: nat, val: u64)
    requires
        1 <= w <= 64,
        start + w <= d.len() * 8,
        (val as nat) < pow2(w),
        forall|k: nat| k < w ==> bit_at(d, (start + k) as nat) == #[trigger] val_bit(val, w, k),
    ensures
        bits_value(d, start, w) == val,
{
    lemma_bits_value_of_val_bits(d, start, w, val);
    lemma_small_mod(val as nat, pow2(w));
}

} // verus!
