//! Scales and the one rounding rule of the crate.

use vstd::prelude::*;

verus! {

/// One hundred percent, in millionths of a percent.
pub const FULL_SCALE: u64 = 100_000_000;

/// Millionths in one unit.
pub const MILLION: u64 = 1_000_000;

/// Bytes in one mebibyte.
pub const BYTES_PER_MB: u64 = 1_048_576;

/// `num / den` rounded toward zero, for a positive `den`.
pub open spec fn toward_zero(num: int, den: int) -> int
    recommends
        den > 0,
{
    if num >= 0 {
        num / den
    } else {
        -((-num) / den)
    }
}

/// The value of `i64` nearest to `x`.
pub open spec fn clamp_i64(x: int) -> i64 {
    if x > i64::MAX {
        i64::MAX
    } else if x < i64::MIN {
        i64::MIN
    } else {
        x as i64
    }
}

/// The value of `u64` nearest to `x`.
pub open spec fn clamp_u64(x: int) -> u64 {
    if x > u64::MAX {
        u64::MAX
    } else if x < 0 {
        0
    } else {
        x as u64
    }
}

/// A dividend beyond 128 bits leaves a quotient beyond 64 bits, whatever the
/// 64-bit divisor.
proof fn lemma_wide_quotient(x: int, d: int)
    by (nonlinear_arith)
    requires
        x > u128::MAX,
        0 < d <= u64::MAX,
    ensures
        x / d > u64::MAX,
{
}

proof fn lemma_product_fits(a: u64, b: u64)
    by (nonlinear_arith)
    ensures
        0 <= a * b <= u128::MAX,
{
}

/// `a * b * c / den`, rounded toward zero and held to the range of `i64`.
///
/// The product is formed without loss, so the rounding happens once.
pub fn scale(a: u64, b: u64, c: i64, den: u64) -> (r: i64)
    requires
        den > 0,
    ensures
        r == clamp_i64(toward_zero(a * b * c, den as int)),
{
    let negative = c < 0;
    let magnitude: u128 = if negative {
        (-(c as i128)) as u128
    } else {
        c as u128
    };
    proof {
        lemma_product_fits(a, b);
    }
    let ab: u128 = (a as u128) * (b as u128);
    let ghost exact: int = ab * magnitude;
    proof {
        assert(a * b * c == if negative {
            -exact
        } else {
            exact
        }) by (nonlinear_arith)
            requires
                ab == a * b,
                exact == ab * magnitude,
                magnitude == if negative {
                    -c
                } else {
                    c as int
                },
        ;
    }
    match ab.checked_mul(magnitude) {
        Some(product) => {
            let q: u128 = product / (den as u128);
            if negative {
                if q >= 0x8000_0000_0000_0000u128 {
                    i64::MIN
                } else {
                    -(q as i64)
                }
            } else if q > 0x7fff_ffff_ffff_ffffu128 {
                i64::MAX
            } else {
                q as i64
            }
        },
        None => {
            proof {
                lemma_wide_quotient(exact, den as int);
            }
            if negative {
                i64::MIN
            } else {
                i64::MAX
            }
        },
    }
}

/// `num / den`, rounded toward zero and held to the range of `i64`.
pub fn quotient(num: i128, den: u64) -> (r: i64)
    requires
        den > 0,
    ensures
        r == clamp_i64(toward_zero(num as int, den as int)),
{
    if num >= 0 {
        let q: u128 = (num as u128) / (den as u128);
        if q > 0x7fff_ffff_ffff_ffffu128 {
            i64::MAX
        } else {
            q as i64
        }
    } else if num == i128::MIN {
        proof {
            lemma_wide_quotient_signed(-(num as int), den as int);
        }
        i64::MIN
    } else {
        let q: u128 = ((-num) as u128) / (den as u128);
        if q >= 0x8000_0000_0000_0000u128 {
            i64::MIN
        } else {
            -(q as i64)
        }
    }
}

/// A dividend of 2^127 leaves a quotient of 2^63 or more, whatever the 64-bit
/// divisor.
proof fn lemma_wide_quotient_signed(x: int, d: int)
    by (nonlinear_arith)
    requires
        x >= 0x8000_0000_0000_0000_0000_0000_0000_0000,
        0 < d <= u64::MAX,
    ensures
        x / d >= i64::MAX + 1,
{
}

/// `part` as a share of `whole`, in millionths of a percent and held to the
/// range of `u64`; zero where `whole` is zero.
pub open spec fn share_of(part: int, whole: int) -> u64 {
    if whole > 0 {
        clamp_u64(part * FULL_SCALE / whole)
    } else {
        0
    }
}

/// `part` as a share of `whole`.
pub fn share(part: u64, whole: u64) -> (r: u64)
    ensures
        r == share_of(part as int, whole as int),
{
    if whole == 0 {
        return 0;
    }
    assert(part * FULL_SCALE <= u128::MAX) by (nonlinear_arith)
        requires
            part <= u64::MAX,
            FULL_SCALE == 100_000_000,
    ;
    let scaled: u128 = (part as u128) * (FULL_SCALE as u128) / (whole as u128);
    if scaled > u64::MAX as u128 {
        u64::MAX
    } else {
        scaled as u64
    }
}

} // verus!
