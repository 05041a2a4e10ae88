//! The range `[0, 2^bit_width)` that a proof speaks of.

use vstd::arithmetic::div_mod::lemma_basic_div;
use vstd::arithmetic::div_mod::lemma_div_non_zero;
use vstd::arithmetic::power2::lemma2_to64;
use vstd::arithmetic::power2::lemma_pow2_pos;
use vstd::arithmetic::power2::lemma_pow2_strictly_increases;
use vstd::arithmetic::power2::pow2;
use vstd::bits::lemma_u64_shr_is_div;
use vstd::prelude::*;

verus! {

/// Whether `value` lies in `[0, 2^bit_width)`.
pub open spec fn fits_in_bits(value: u64, bit_width: usize) -> bool {
    (value as nat) < pow2(bit_width as nat)
}

/// Every 64-bit value lies in a range of 64 bits or more.
pub proof fn lemma_wide_range_holds_all(value: u64, bit_width: usize)
    requires
        bit_width >= 64,
    ensures
        fits_in_bits(value, bit_width),
{
    lemma2_to64();
    if bit_width > 64 {
        lemma_pow2_strictly_increases(64, bit_width as nat);
    }
}

/// Decides whether `value` lies in `[0, 2^bit_width)`.
pub fn value_fits(value: u64, bit_width: usize) -> (fits: bool)
    ensures
        fits == fits_in_bits(value, bit_width),
{
    if bit_width >= 64 {
        proof {
            lemma_wide_range_holds_all(value, bit_width);
        }
        true
    } else {
        let shift: u64 = bit_width as u64;
        let high: u64 = value >> shift;
        proof {
            let p = pow2(bit_width as nat) as int;
            lemma_pow2_pos(bit_width as nat);
            lemma_u64_shr_is_div(value, shift);
            if (value as int) < p {
                lemma_basic_div(value as int, p);
            } else {
                lemma_div_non_zero(value as int, p);
            }
        }
        high == 0
    }
}

} // verus!
