//! The prescaler resolver.
//!
//! A prescaler divides a source clock by one divisor out of a fixed,
//! hardware-defined set.  Given a source frequency and a requested target
//! frequency the resolver picks the smallest legal divisor whose resulting
//! frequency does not exceed the target: the divide ratio is rounded up to
//! `ceil(src / target)` and then mapped to the next divisor of the ordered
//! set that is at least that large.  Very large ratios saturate at the
//! largest divisor of the set.
//!
//! Each resolver returns both the register code of the chosen divisor and
//! the divisor itself; the frequency that actually results is `src / divisor`.

use vstd::prelude::*;
use vstd::arithmetic::div_mod::{
    lemma_div_is_ordered, lemma_div_multiples_vanish, lemma_fundamental_div_mod,
    lemma_mod_division_less_than_divisor,
};
use vstd::arithmetic::mul::lemma_mul_inequality;

verus! {

/// The resolved bus prescalers: register codes and effective divisors for
/// the AHB bus and the two APB buses.
#[derive(Clone, Copy, Debug)]
pub struct PrescalerPlan {
    /// Register code of the AHB divisor.
    pub hpre_bits: u8,
    /// Effective AHB divisor.
    pub hpre_div: u32,
    /// Register code of the first APB divisor.
    pub ppre1_bits: u8,
    /// Effective first APB divisor.
    pub ppre1_div: u32,
    /// Register code of the second APB divisor.
    pub ppre2_bits: u8,
    /// Effective second APB divisor.
    pub ppre2_div: u32,
}

/// Ceiling of `src / target` for `src >= 1` and `target >= 1`.
pub open spec fn ceil_div(src: int, target: int) -> int {
    (src - 1) / target + 1
}

/// Membership in the fixed AHB divisor set.
pub open spec fn ahb_divisor(d: int) -> bool {
    d == 1 || d == 2 || d == 4 || d == 8 || d == 16 || d == 64 || d == 128 || d == 256 || d == 512
}

/// Membership in the fixed APB divisor set.
pub open spec fn apb_divisor(d: int) -> bool {
    d == 1 || d == 2 || d == 4 || d == 8 || d == 16
}

/// The smallest AHB divisor that is at least `ratio`, saturating at 512.
pub open spec fn spec_ahb_div(ratio: int) -> int {
    if ratio <= 1 {
        1
    } else if ratio <= 2 {
        2
    } else if ratio <= 4 {
        4
    } else if ratio <= 8 {
        8
    } else if ratio <= 16 {
        16
    } else if ratio <= 64 {
        64
    } else if ratio <= 128 {
        128
    } else if ratio <= 256 {
        256
    } else {
        512
    }
}

/// The smallest APB divisor that is at least `ratio`, saturating at 16.
pub open spec fn spec_apb_div(ratio: int) -> int {
    if ratio <= 1 {
        1
    } else if ratio <= 2 {
        2
    } else if ratio <= 4 {
        4
    } else if ratio <= 8 {
        8
    } else {
        16
    }
}

/// The 4-bit register code of an AHB divisor.
pub open spec fn spec_hpre_bits(div: int) -> u8 {
    if div == 1 {
        0b0000u8
    } else if div == 2 {
        0b1000u8
    } else if div == 4 {
        0b1001u8
    } else if div == 8 {
        0b1010u8
    } else if div == 16 {
        0b1011u8
    } else if div == 64 {
        0b1100u8
    } else if div == 128 {
        0b1101u8
    } else if div == 256 {
        0b1110u8
    } else {
        0b1111u8
    }
}

/// The 3-bit register code of an APB divisor.
pub open spec fn spec_ppre_bits(div: int) -> u8 {
    if div == 1 {
        0b000u8
    } else if div == 2 {
        0b100u8
    } else if div == 4 {
        0b101u8
    } else if div == 8 {
        0b110u8
    } else {
        0b111u8
    }
}

/// If `d >= ceil(src / target)` then dividing by `d` lands at or below the
/// target.
proof fn lemma_ceil_bound(src: int, target: int, d: int)
    requires
        1 <= target,
        1 <= src,
        1 <= d,
        d >= ceil_div(src, target),
    ensures
        src / d <= target,
{
    let q = (src - 1) / target;
    lemma_fundamental_div_mod(src - 1, target);
    lemma_mod_division_less_than_divisor(src - 1, target);
    assert(src - 1 == target * q + (src - 1) % target);
    assert(src <= target * q + target);
    assert(target * q + target == target * (q + 1)) by (nonlinear_arith);
    lemma_mul_inequality(q + 1, d, target);
    assert(target * (q + 1) <= target * d) by (nonlinear_arith)
        requires
            (q + 1) * target <= d * target,
    ;
    assert(src <= target * d);
    lemma_div_is_ordered(src, target * d, d);
    lemma_div_multiples_vanish(target, d);
    assert(target * d == d * target) by (nonlinear_arith);
    assert((target * d) / d == target);
}

/// Resolves the AHB prescaler: the register code and the chosen divisor.
///
/// The divisor is the smallest member of the AHB set at least
/// `ceil(src / target)`; ratios above 512 saturate at 512, in which case the
/// resulting frequency exceeds the target.
pub fn ahb_prescaler(src: u32, target: u32) -> (r: (u8, u32))
    requires
        1 <= target <= src,
    ensures
        r.1 == spec_ahb_div(ceil_div(src as int, target as int)),
        r.0 == spec_hpre_bits(r.1 as int),
        ahb_divisor(r.1 as int),
        r.1 >= ceil_div(src as int, target as int) ==> src as int / r.1 as int <= target,
        ceil_div(src as int, target as int) <= 512 ==> r.1 >= ceil_div(
            src as int,
            target as int,
        ),
        forall|d: int|
            ahb_divisor(d) && d >= ceil_div(src as int, target as int) ==> r.1 <= d,
{
    let ratio: u32 = 1 + (src - 1) / target;
    let r = if ratio <= 1 {
        (0b0000u8, 1u32)
    } else if ratio <= 2 {
        (0b1000u8, 2u32)
    } else if ratio <= 4 {
        (0b1001u8, 4u32)
    } else if ratio <= 8 {
        (0b1010u8, 8u32)
    } else if ratio <= 16 {
        (0b1011u8, 16u32)
    } else if ratio <= 64 {
        (0b1100u8, 64u32)
    } else if ratio <= 128 {
        (0b1101u8, 128u32)
    } else if ratio <= 256 {
        (0b1110u8, 256u32)
    } else {
        (0b1111u8, 512u32)
    };
    proof {
        if r.1 >= ceil_div(src as int, target as int) {
            lemma_ceil_bound(src as int, target as int, r.1 as int);
        }
    }
    r
}

/// Resolves an APB prescaler: the register code and the chosen divisor.
///
/// The divisor is the smallest member of the APB set at least
/// `ceil(src / target)`; ratios above 16 saturate at 16, in which case the
/// resulting frequency exceeds the target.
pub fn apb_prescaler(src: u32, target: u32) -> (r: (u8, u32))
    requires
        1 <= target <= src,
    ensures
        r.1 == spec_apb_div(ceil_div(src as int, target as int)),
        r.0 == spec_ppre_bits(r.1 as int),
        apb_divisor(r.1 as int),
        r.1 >= ceil_div(src as int, target as int) ==> src as int / r.1 as int <= target,
        ceil_div(src as int, target as int) <= 16 ==> r.1 >= ceil_div(src as int, target as int),
        forall|d: int|
            apb_divisor(d) && d >= ceil_div(src as int, target as int) ==> r.1 <= d,
{
    let ratio: u32 = 1 + (src - 1) / target;
    let r = if ratio <= 1 {
        (0b000u8, 1u32)
    } else if ratio <= 2 {
        (0b100u8, 2u32)
    } else if ratio <= 4 {
        (0b101u8, 4u32)
    } else if ratio <= 8 {
        (0b110u8, 8u32)
    } else {
        (0b111u8, 16u32)
    };
    proof {
        if r.1 >= ceil_div(src as int, target as int) {
            lemma_ceil_bound(src as int, target as int, r.1 as int);
        }
    }
    r
}

} // verus!
