//! Bit-extraction primitives shared by every register decoder.
//!
//! All configuration-space registers are decoded by the same two operations:
//! testing one bit, and extracting a contiguous, right-aligned range of bits.

use vstd::prelude::*;

verus! {

/// The mask selecting the `width` least-significant bits, for `1 <= width <= 64`.
pub open spec fn mask_of(width: u64) -> u64
    recommends
        1 <= width <= 64,
{
    if width == 64 {
        0xFFFF_FFFF_FFFF_FFFFu64
    } else {
        ((1u64 << width) - 1) as u64
    }
}

/// The value formed by bits `[low, high]` (inclusive, 0 = least significant)
/// of `v`, shifted right so that the field starts at bit 0:
/// `(v >> low) & ((1 << (high - low + 1)) - 1)`.
pub open spec fn bits_of(v: u64, high: u64, low: u64) -> u64
    recommends
        low <= high < 64,
{
    (v >> low) & mask_of((high - low + 1) as u64)
}

/// Whether bit `index` (0 = least significant) of `v` is set.
pub open spec fn bit_of(v: u64, index: u64) -> bool
    recommends
        index < 64,
{
    (v >> index) & 1 == 1
}

/// Returns whether bit `index` of `v` is set.
pub fn get_bit(v: u64, index: u64) -> (r: bool)
    requires
        index < 64,
    ensures
        r == bit_of(v, index),
{
    ((v >> index) & 1) == 1
}

/// Returns the unsigned value formed by bits `[low, high]` of `v`,
/// right-aligned to bit 0.
pub fn get_bits(v: u64, high: u64, low: u64) -> (r: u64)
    requires
        low <= high,
        high < 64,
    ensures
        r == bits_of(v, high, low),
{
    let width: u64 = high - low + 1;
    if width == 64 {
        let r = v >> low;
        proof {
            assert(r & 0xFFFF_FFFF_FFFF_FFFFu64 == r) by (bit_vector);
        }
        r
    } else {
        proof {
            assert(1u64 << width >= 1) by (bit_vector)
                requires
                    width < 64,
            ;
        }
        (v >> low) & ((1u64 << width) - 1)
    }
}

/// An extracted bit range never exceeds the mask of its width.
pub proof fn lemma_bits_of_le_mask(v: u64, high: u64, low: u64)
    requires
        low <= high,
        high < 64,
    ensures
        bits_of(v, high, low) <= mask_of((high - low + 1) as u64),
{
    let m = mask_of((high - low + 1) as u64);
    assert((v >> low) & m <= m) by (bit_vector);
}

/// `get_bits` for a field at most 8 bits wide, returned as a `u8`.
pub fn get_bits_u8(v: u64, high: u64, low: u64) -> (r: u8)
    requires
        low <= high,
        high < 64,
        high - low < 8,
    ensures
        r as u64 == bits_of(v, high, low),
{
    proof {
        lemma_bits_of_le_mask(v, high, low);
        let width = (high - low + 1) as u64;
        assert(1u64 << width >= 1 && (1u64 << width) - 1 <= 0xFF) by (bit_vector)
            requires
                1 <= width <= 8,
        ;
    }
    get_bits(v, high, low) as u8
}

/// `get_bits` for a field at most 16 bits wide, returned as a `u16`.
pub fn get_bits_u16(v: u64, high: u64, low: u64) -> (r: u16)
    requires
        low <= high,
        high < 64,
        high - low < 16,
    ensures
        r as u64 == bits_of(v, high, low),
{
    proof {
        lemma_bits_of_le_mask(v, high, low);
        let width = (high - low + 1) as u64;
        assert(1u64 << width >= 1 && (1u64 << width) - 1 <= 0xFFFF) by (bit_vector)
            requires
                1 <= width <= 16,
        ;
    }
    get_bits(v, high, low) as u16
}

/// `get_bits` for a field at most 32 bits wide, returned as a `u32`.
pub fn get_bits_u32(v: u64, high: u64, low: u64) -> (r: u32)
    requires
        low <= high,
        high < 64,
        high - low < 32,
    ensures
        r as u64 == bits_of(v, high, low),
{
    proof {
        lemma_bits_of_le_mask(v, high, low);
        let width = (high - low + 1) as u64;
        assert(1u64 << width >= 1 && (1u64 << width) - 1 <= 0xFFFF_FFFF) by (bit_vector)
            requires
                1 <= width <= 32,
        ;
    }
    get_bits(v, high, low) as u32
}

} // verus!
