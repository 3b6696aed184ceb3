//! Bit-field packing primitive.
//!
//! A control word is assembled from fragments: each fragment is a value
//! shifted into a half-open bit range `[start, end)` of a 16-bit word, and
//! the caller combines non-overlapping fragments with bitwise or.

use vstd::prelude::*;

verus! {

use vstd::arithmetic::power2::pow2;
use vstd::bits::{low_bits_mask, lemma_u16_shl_is_mul, lemma_u16_pow2_no_overflow};

use crate::error::CodecError;

/// The value of an `n`-bit mask: `n` low bits set, saturating at 16 bits.
pub open spec fn mask_spec(n: u8) -> u16 {
    if n >= 16 {
        0xffffu16
    } else {
        (((1u16 << (n as u16)) - 1) as u16)
    }
}

/// A value masked to the width of the bit range `[start, end)` and shifted
/// into place within a 16-bit word.
pub open spec fn pack_spec(value: u16, start: u8, end: u8) -> u16
    recommends
        start <= end,
        end <= 16,
{
    if start < 16 {
        ((value & mask_spec((end - start) as u8)) as u16) << (start as u16)
    } else {
        0u16
    }
}

/// The mask has the `n` low bits set for `n < 16` — its value is
/// `2^n - 1` — and saturates to all 16 bits set for `n >= 16`.
pub proof fn lemma_mask_is_low_bits(n: u8)
    ensures
        n < 16 ==> mask_spec(n) as nat == low_bits_mask(n as nat),
        n >= 16 ==> mask_spec(n) == 0xffffu16,
{
    if n < 16 {
        lemma_u16_pow2_no_overflow(n as nat);
        lemma_u16_shl_is_mul(1u16, n as u16);
    }
}

/// Returns a word with the `n` low bits set — the value `2^n - 1` — and,
/// for `n >= 16`, all 16 bits set.
pub fn mask(n: u8) -> (r: u16)
    ensures
        r == mask_spec(n),
        n < 16 ==> r as nat == low_bits_mask(n as nat),
        n >= 16 ==> r == 0xffffu16,
{
    proof {
        lemma_mask_is_low_bits(n);
    }
    if n >= 16 {
        u16::MAX
    } else if n == 0 {
        proof {
            assert((1u16 << 0u16) - 1 == 0) by (bit_vector);
        }
        0
    } else {
        proof {
            assert(n < 16 ==> (1u16 << (n as u16)) >= 1) by (bit_vector);
        }
        (1u16 << (n as u16)) - 1
    }
}

/// Shifts `value` into the bit range `[start, end)` of a 16-bit word.
///
/// The value must be representable in `end - start` bits; a caller that
/// cannot guarantee this uses [`try_pack`], which reports the violation as
/// [`CodecError::ValueOutOfRange`] instead.
pub fn pack(value: u16, start: u8, end: u8) -> (r: u16)
    requires
        start <= end,
        end <= 16,
        value <= mask_spec((end - start) as u8),
    ensures
        r == pack_spec(value, start, end),
        r as nat == (value as nat) * pow2(start as nat),
{
    let n = end - start;
    let m = mask(n);
    let masked = value & m;
    proof {
        assert(value <= m ==> (value & m) == value) by (bit_vector)
            requires
                m == mask_spec(n),
                n == end - start,
                n < 16 ==> m == ((1u16 << (n as u16)) - 1) as u16,
                n >= 16 ==> m == 0xffffu16,
        ;
    }
    if start < 16 {
        proof {
            lemma_pow2_bv(start);
            lemma_pack_fits(value, start, end);
            assert((masked as nat) * pow2(start as nat) <= (mask_spec((end - start) as u8) as nat)
                * pow2(start as nat)) by (nonlinear_arith)
                requires
                    masked <= mask_spec((end - start) as u8),
                    pow2(start as nat) >= 0,
            ;
            lemma_u16_shl_is_mul(masked, start as u16);
        }
        masked << (start as u16)
    } else {
        proof {
            assert((1u16 << 0u16) == 1) by (bit_vector);
            assert(value == 0);
            assert((value as nat) * pow2(start as nat) == 0) by (nonlinear_arith)
                requires
                    value == 0,
            ;
        }
        masked
    }
}

/// The largest value of the range `[start, end)`, shifted into place, still
/// fits in 16 bits.
proof fn lemma_pack_fits(value: u16, start: u8, end: u8)
    by (bit_vector)
    requires
        start <= end,
        end <= 16,
        start < 16,
    ensures
        (mask_spec((end - start) as u8) as nat) * pow2_bv(start) <= 0xffff,
{
}

/// `2^n` for `n < 16`, written with a shift so that the bit-vector solver
/// can evaluate it.
pub open spec fn pow2_bv(n: u8) -> nat
    recommends
        n < 16,
{
    (1u16 << (n as u16)) as nat
}

/// The shift form of a power of two agrees with the arithmetic form.
pub proof fn lemma_pow2_bv(n: u8)
    requires
        n < 16,
    ensures
        pow2_bv(n) == pow2(n as nat),
{
    lemma_u16_pow2_no_overflow(n as nat);
    lemma_u16_shl_is_mul(1u16, n as u16);
}

/// Validates `value` against the width of the bit range `[start, end)` and
/// packs it; a value that exceeds `2^(end - start) - 1` is rejected as
/// [`CodecError::ValueOutOfRange`].
pub fn try_pack(value: u16, start: u8, end: u8) -> (r: Result<u16, CodecError>)
    requires
        start <= end,
        end <= 16,
    ensures
        value <= mask_spec((end - start) as u8) <==> r is Ok,
        r matches Ok(w) ==> w == pack_spec(value, start, end),
        r matches Err(e) ==> e == CodecError::ValueOutOfRange,
{
    let n = end - start;
    let m = mask(n);
    if value > m {
        Err(CodecError::ValueOutOfRange)
    } else {
        Ok(pack(value, start, end))
    }
}

/// Packing round-trips: a value within the width of its range is recovered
/// by shifting the packed word back and masking to the range's width.
pub proof fn lemma_pack_round_trip(value: u16, start: u8, end: u8)
    by (bit_vector)
    requires
        start <= end,
        end <= 16,
        value <= mask_spec((end - start) as u8),
    ensures
        (pack_spec(value, start, end) >> (start as u16)) & mask_spec((end - start) as u8)
            == value,
{
}

} // verus!
