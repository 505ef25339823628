//! The bit codec: extraction and insertion of an arbitrary bit range of a
//! byte buffer.
//!
//! Bit numbering is most-significant-bit first: bit 0 is the most significant
//! bit of byte 0.  [`read_bits`] returns the addressed range with its first
//! bit as the most significant bit of the result; [`write_bits`] is the
//! inverse and leaves every bit outside the addressed range unchanged.  Both
//! walk the covered bytes once, masking the partially covered boundary bytes.

use vstd::prelude::*;

verus! {

use vstd::arithmetic::power2::lemma2_to64;
use vstd::arithmetic::power2::lemma_pow2_adds;
use vstd::arithmetic::power2::lemma_pow2_strictly_increases;
use vstd::arithmetic::power2::pow2;
use vstd::bits::lemma_u64_low_bits_mask_is_mod;
use vstd::bits::lemma_u64_pow2_no_overflow;
use vstd::bits::lemma_u64_shl_is_mul;
use vstd::bits::lemma_u64_shr_is_div;
use vstd::bits::low_bits_mask;
use vstd::arithmetic::div_mod::lemma_small_mod;
use crate::bits::bit_at;
use crate::bits::bits_value;
use crate::bits::covered;
use crate::bits::lemma_bits_value_of_val_bits;
use crate::bits::lemma_shr_shr;
use crate::bits::val_bit;
use crate::bits::lemma_bits_value_append;
use crate::bits::lemma_bits_value_bound;
use crate::bits::lemma_byte_chunk;

/// Extracts the `bits`-bit range of `data` that begins at absolute bit index
/// `start`; the first extracted bit becomes the most significant bit of the
/// result.
pub fn read_bits(data: &[u8], start: usize, bits: usize) -> (r: u64)
    requires
        1 <= bits <= 64,
        start + bits <= data@.len() * 8,
        start + bits <= usize::MAX,
    ensures
        r as nat == bits_value(data@, start as nat, bits as nat),
        (r as nat) < pow2(bits as nat),
{
    let end: usize = start + bits;
    let fb: usize = start / 8;
    let lb: usize = (end - 1) / 8;
    let mut idx: usize = fb;
    let mut v: u64 = 0;
    proof {
        lemma2_to64();
        assert(8 * fb <= start);
    }
    while idx <= lb
        invariant
            1 <= bits <= 64,
            end == start + bits,
            start + bits <= data@.len() * 8,
            start + bits <= usize::MAX,
            fb == start / 8,
            lb == (end - 1) / 8,
            fb <= idx <= lb + 1,
            v as nat == bits_value(
                data@,
                start as nat,
                covered(start as nat, end as nat, (8 * idx) as nat),
            ),
            (v as nat) < pow2(covered(start as nat, end as nat, (8 * idx) as nat)),
        decreases lb + 1 - idx,
    {
        let bs: usize = if idx * 8 < start {
            start - idx * 8
        } else {
            0
        };
        let be: usize = if end - idx * 8 >= 8 {
            8
        } else {
            end - idx * 8
        };
        let c: usize = be - bs;
        let b64: u64 = data[idx] as u64;
        let sh: u64 = (8 - be) as u64;
        let cc: u64 = c as u64;
        proof {
            assert((1u64 << cc) >= 1) by (bit_vector)
                requires
                    cc <= 8,
            ;
        }
        let mask: u64 = (1u64 << cc) - 1;
        let chunk: u64 = (b64 >> sh) & mask;
        let v2: u64 = (v << cc) | chunk;
        proof {
            let d = data@;
            let sn = start as nat;
            let en = end as nat;
            let done = covered(sn, en, (8 * idx) as nat);
            let cn = c as nat;
            assert(8 * idx + bs == sn + done);
            assert(covered(sn, en, (8 * (idx + 1)) as nat) == done + cn);
            // The chunk is the value of bits [bs, be) of byte idx.
            lemma_u64_shr_is_div(b64, sh);
            lemma_u64_pow2_no_overflow(cn);
            lemma_u64_shl_is_mul(1u64, cc);
            assert(mask == low_bits_mask(cn));
            lemma_u64_low_bits_mask_is_mod(b64 >> sh, cn);
            lemma_byte_chunk(d, idx as nat, bs as nat, be as nat);
            assert(chunk as nat == bits_value(d, (8 * idx + bs) as nat, cn));
            // Appending the chunk scales the value read so far.
            lemma_bits_value_append(d, sn, done, cn);
            lemma_pow2_adds(done, cn);
            if done + cn < 64 {
                lemma_pow2_strictly_increases(done + cn, 64);
            }
            lemma2_to64();
            assert((v as nat) * pow2(cn) + (chunk as nat) < pow2(done + cn)) by (nonlinear_arith)
                requires
                    (v as nat) < pow2(done),
                    (chunk as nat) < pow2(cn),
                    pow2(done + cn) == pow2(done) * pow2(cn),
            ;
            lemma_u64_shl_is_mul(v, cc);
            assert(((v << cc) | chunk) == (v << cc) + chunk) by (bit_vector)
                requires
                    chunk < (1u64 << cc),
                    cc <= 8,
            ;
            assert(v2 as nat == bits_value(d, sn, done + cn));
            lemma_bits_value_bound(d, sn, done + cn);
        }
        v = v2;
        idx = idx + 1;
    }
    proof {
        assert(covered(start as nat, end as nat, (8 * idx) as nat) == bits as nat);
    }
    v
}

/// How a read-modify-write of one byte moves bits: inside `[bs, be)` the new
/// byte takes the low bits of `low`, highest first; outside it keeps the old
/// byte's bits.
#[verifier::rlimit(30)]
proof fn lemma_write_byte_bits(old_b: u8, nb: u8, low: u8, bs: u8, be: u8, j: u8)
    by (bit_vector)
    requires
        bs < be,
        be <= 8,
        j < 8,
        nb == (old_b & !((0xFFu8 >> bs) & (0xFFu8 << ((8 - be) as u8)))) | (low << ((8 - be) as u8)),
        (low as u16) < (1u16 << ((be - bs) as u16)),
    ensures
        bs <= j < be ==> ((nb >> ((7 - j) as u8)) & 1) == ((low >> ((be - 1 - j) as u8)) & 1),
        !(bs <= j < be) ==> ((nb >> ((7 - j) as u8)) & 1) == ((old_b >> ((7 - j) as u8)) & 1),
{
}

/// A bit of the masked low chunk of `v == val >> dn` is the matching bit of
/// `val` itself.
#[verifier::rlimit(30)]
proof fn lemma_low_chunk_bit(val: u64, v: u64, low: u64, dn: u64, cc: u64, l: u64)
    by (bit_vector)
    requires
        v == val >> dn,
        low == v & (((1u64 << cc) - 1) as u64),
        l < cc,
        cc <= 8,
        dn + cc <= 64,
    ensures
        ((low >> l) & 1) == ((val >> ((dn + l) as u64)) & 1),
{
}

/// Inserts the low `bits` bits of `val` into the range of `data` that begins
/// at absolute bit index `start`: the most significant of those bits lands on
/// bit `start`.  Every bit outside the addressed range is left bit-for-bit
/// unchanged, so writing one field never alters another.  A value wider than
/// the range is reduced to its `bits` low bits.
pub fn write_bits(data: &mut [u8], start: usize, bits: usize, val: u64)
    requires
        1 <= bits <= 64,
        start + bits <= old(data)@.len() * 8,
        start + bits <= usize::MAX,
    ensures
        final(data)@.len() == old(data)@.len(),
        forall|k: nat|
            k < bits ==> bit_at(final(data)@, (start + k) as nat) == #[trigger] val_bit(
                val,
                bits as nat,
                k,
            ),
        forall|i: nat|
            i < final(data)@.len() * 8 && !(start <= i < start + bits) ==> #[trigger] bit_at(
                final(data)@,
                i,
            ) == bit_at(old(data)@, i),
        bits_value(final(data)@, start as nat, bits as nat) == val as nat % pow2(bits as nat),
        (val as nat) < pow2(bits as nat) ==> bits_value(final(data)@, start as nat, bits as nat)
            == val as nat,
{
    let end: usize = start + bits;
    let fb: usize = start / 8;
    let lb: usize = (end - 1) / 8;
    let n: usize = lb - fb + 1;
    let mut v: u64 = val;
    let mut i: usize = 0;
    proof {
        assert(8 * fb <= start);
        assert(8 * lb <= end - 1 < 8 * lb + 8);
        assert(val >> 0u64 == val) by (bit_vector);
    }
    while i < n
        invariant
            1 <= bits <= 64,
            end == start + bits,
            start + bits <= old(data)@.len() * 8,
            start + bits <= usize::MAX,
            fb == start / 8,
            lb == (end - 1) / 8,
            n == lb - fb + 1,
            i <= n,
            data@.len() == old(data)@.len(),
            bits as nat - covered(start as nat, end as nat, (8 * (lb + 1 - i)) as nat) <= bits,
            i < n ==> bits as nat - covered(start as nat, end as nat, (8 * (lb + 1 - i)) as nat)
                <= 63,
            i < n ==> v == val >> (((bits as nat - covered(
                start as nat,
                end as nat,
                (8 * (lb + 1 - i)) as nat,
            )) as nat) as u64),
            forall|p: nat|
                start as nat + covered(start as nat, end as nat, (8 * (lb + 1 - i)) as nat) <= p
                    < end ==> #[trigger] bit_at(data@, p) == val_bit(
                    val,
                    bits as nat,
                    (p - start) as nat,
                ),
            forall|p: nat|
                p < data@.len() * 8 && !(start as nat + covered(
                    start as nat,
                    end as nat,
                    (8 * (lb + 1 - i)) as nat,
                ) <= p < end) ==> #[trigger] bit_at(data@, p) == bit_at(old(data)@, p),
        decreases n - i,
    {
        let bi: usize = lb - i;
        let bs: usize = if bi * 8 < start {
            start - bi * 8
        } else {
            0
        };
        let be: usize = if end - bi * 8 >= 8 {
            8
        } else {
            end - bi * 8
        };
        let c: usize = be - bs;
        let cc: u64 = c as u64;
        proof {
            assert((1u64 << cc) >= 1 && (1u64 << cc) <= 256 && (v & (((1u64 << cc) - 1) as u64)) < (1u64 << cc)) by (bit_vector)
                requires
                    cc <= 8,
            ;
        }
        let mask: u64 = (1u64 << cc) - 1;
        let low: u8 = (v & mask) as u8;
        let bs8: u8 = bs as u8;
        let be8: u8 = be as u8;
        let sel: u8 = (0xFFu8 >> bs8) & (0xFFu8 << (8 - be8));
        let old_b: u8 = data[bi];
        let nb: u8 = (old_b & !sel) | (low << (8 - be8));
        proof {
            let d0 = data@;
            let sn = start as nat;
            let en = end as nat;
            let wn = bits as nat;
            let dn_nat = (wn - covered(sn, en, (8 * (lb + 1 - i)) as nat)) as nat;
            let dn = dn_nat as u64;
            assert(8 * bi + be == sn + covered(sn, en, (8 * (lb + 1 - i)) as nat));
            assert(dn_nat == en - (8 * bi + be));
            assert((low as u16) < (1u16 << ((be8 - bs8) as u16)) && low == (v & (((1u64 << cc) - 1) as u64)) as u8 && (low as u64) == v & (((1u64 << cc) - 1) as u64)) by (bit_vector)
                requires
                    cc <= 8,
                    cc == (be8 - bs8) as u64,
                    bs8 < be8 <= 8,
                    low == (v & (((1u64 << cc) - 1) as u64)) as u8,
            ;
            let d1 = d0.update(bi as int, nb);
            assert(data@.update(bi as int, nb) == d1);
            // Every bit position p of the buffer after this byte is stored.
            assert forall|p: nat|
                sn + covered(sn, en, (8 * (lb + 1 - (i + 1))) as nat) <= p < en implies bit_at(
                d1,
                p,
            ) == val_bit(val, wn, (p - sn) as nat) by {
                assert(covered(sn, en, (8 * (lb + 1 - (i + 1))) as nat) == (8 * bi + bs) - sn);
                if p < 8 * bi + be {
                    // A bit of the byte written in this iteration.
                    let j = (p - 8 * bi) as nat;
                    assert(p / 8 == bi && p % 8 == j) by (nonlinear_arith)
                        requires
                            8 * bi <= p < 8 * bi + 8,
                            j == p - 8 * bi,
                    ;
                    let j8 = j as u8;
                    assert(bs8 <= j8 < be8);
                    lemma_write_byte_bits(old_b, nb, low, bs8, be8, j8);
                    assert(((nb >> ((7 - j8) as u8)) & 1) == ((low >> ((be8 - 1 - j8) as u8)) & 1));
                    let l = ((be - 1 - j) as nat) as u64;
                    lemma_low_chunk_bit(val, v, low as u64, dn, cc, l);
                    assert(((low as u64) >> l) & 1 == ((low >> (l as u8)) & 1) as u64) by (
                    bit_vector)
                        requires
                            l < 8,
                    ;
                    assert((dn + l) as u64 == ((wn - 1 - (p - sn)) as nat) as u64);
                } else {
                    // A bit stored by an earlier iteration; its byte is untouched.
                    assert(p / 8 != bi) by (nonlinear_arith)
                        requires
                            p >= 8 * bi + 8,
                    ;
                    assert(bit_at(d1, p) == bit_at(d0, p));
                }
            }
            assert forall|p: nat|
                p < d1.len() * 8 && !(sn + covered(sn, en, (8 * (lb + 1 - (i + 1))) as nat) <= p
                    < en) implies bit_at(d1, p) == bit_at(old(data)@, p) by {
                assert(covered(sn, en, (8 * (lb + 1 - (i + 1))) as nat) == (8 * bi + bs) - sn);
                if 8 * bi <= p < 8 * bi + 8 {
                    let j = (p - 8 * bi) as nat;
                    assert(p / 8 == bi && p % 8 == j) by (nonlinear_arith)
                        requires
                            8 * bi <= p < 8 * bi + 8,
                            j == p - 8 * bi,
                    ;
                    let j8 = j as u8;
                    assert(!(bs8 <= j8 < be8));
                    lemma_write_byte_bits(old_b, nb, low, bs8, be8, j8);
                    assert(((nb >> ((7 - j8) as u8)) & 1) == ((old_b >> ((7 - j8) as u8)) & 1));
                    assert(bit_at(d1, p) == bit_at(d0, p));
                    assert(!(sn + covered(sn, en, (8 * (lb + 1 - i)) as nat) <= p < en));
                } else {
                    assert(p / 8 != bi) by (nonlinear_arith)
                        requires
                            p < 8 * bi || p >= 8 * bi + 8,
                    ;
                    assert(bit_at(d1, p) == bit_at(d0, p));
                    assert(!(sn + covered(sn, en, (8 * (lb + 1 - i)) as nat) <= p < en));
                }
            }
        }
        data[bi] = nb;
        proof {
            let sn = start as nat;
            let en = end as nat;
            let wn = bits as nat;
            let dn_nat = (wn - covered(sn, en, (8 * (lb + 1 - i)) as nat)) as nat;
            let dn = dn_nat as u64;
            if i + 1 < n {
                // The value still to store loses the bits this byte took.
                assert(covered(sn, en, (8 * (lb + 1 - (i + 1))) as nat) == (8 * bi + bs) - sn);
                assert(wn - covered(sn, en, (8 * (lb + 1 - (i + 1))) as nat) <= 63);
                lemma_shr_shr(val, dn, cc);
            }
        }
        v = v >> cc;
        i = i + 1;
    }
    proof {
        let sn = start as nat;
        let en = end as nat;
        let wn = bits as nat;
        assert(covered(sn, en, (8 * (lb + 1 - n)) as nat) == 0);
        assert forall|k: nat| k < wn implies bit_at(data@, (sn + k) as nat) == #[trigger] val_bit(
            val,
            wn,
            k,
        ) by {
            assert(bit_at(data@, (sn + k) as nat) == val_bit(val, wn, ((sn + k) - sn) as nat));
        }
        lemma_bits_value_of_val_bits(data@, sn, wn, val);
        if (val as nat) < pow2(wn) {
            lemma_small_mod(val as nat, pow2(wn));
        }
    }
}

} // verus!
