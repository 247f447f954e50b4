use vstd::arithmetic::div_mod::lemma_basic_div;
use vstd::arithmetic::power2::{
    lemma2_to64, lemma_pow2_strictly_increases, lemma_pow2_unfold, pow2,
};
use vstd::prelude::*;

verus! {

/// Every whole number below this one is a single precision number: 2 to the
/// power 24, the number of binary places that a single precision number
/// holds.
pub const SINGLE_LIMIT: u64 = 0x100_0000;

/// The number of binary places that `n` has beyond those that a single
/// precision number holds.
pub open spec fn excess(n: nat) -> nat
    decreases n,
{
    if n < SINGLE_LIMIT {
        0
    } else {
        1 + excess(n / 2)
    }
}

/// `n` divided by 2 to the power `k`, rounded to the nearest whole number,
/// and to the even one of two that are equally near.
pub open spec fn rounded(n: nat, k: nat) -> nat {
    let unit = pow2(k);
    let whole = n / unit;
    let rest = n % unit;
    if 2 * rest > unit || (2 * rest == unit && whole % 2 == 1) {
        whole + 1
    } else {
        whole
    }
}

/// A number held to the range of 32 bits.
pub open spec fn held(v: nat) -> u32 {
    if v > u32::MAX {
        u32::MAX
    } else {
        v as u32
    }
}

/// Whether a single precision bit pattern has its sign bit set.
pub open spec fn is_negative(bits: u32) -> bool {
    bits >= 0x8000_0000
}

/// The exponent field of a single precision bit pattern.
pub open spec fn exponent_field(bits: u32) -> nat {
    ((bits / 0x80_0000) % 256) as nat
}

/// The fraction field of a single precision bit pattern.
pub open spec fn fraction_field(bits: u32) -> nat {
    (bits % 0x80_0000) as nat
}

/// The whole number `s` for which a finite single precision number is
/// `s * 2^places`, but for its sign.
pub open spec fn significand(bits: u32) -> nat {
    if exponent_field(bits) == 0 {
        fraction_field(bits)
    } else {
        0x80_0000 + fraction_field(bits)
    }
}

/// The power of 2 that goes with `significand`.
pub open spec fn places(bits: u32) -> int {
    if exponent_field(bits) == 0 {
        -149
    } else {
        exponent_field(bits) - 150
    }
}

/// A size times a factor that is given as a single precision bit pattern,
/// in single precision arithmetic, cut to a whole number and held to the
/// range of 32 bits.
///
/// The size is rounded to the nearest single precision number, the product
/// of the two is rounded to the nearest single precision number again, and of
/// that the whole part is taken. A factor that is not a number gives 0, and
/// so does a negative one; an infinite factor gives the largest size, but 0
/// for the size 0.
pub open spec fn scaled_by(size: u32, bits: u32) -> u32 {
    if exponent_field(bits) == 255 {
        if fraction_field(bits) == 0 && !is_negative(bits) && size > 0 {
            u32::MAX
        } else {
            0
        }
    } else if is_negative(bits) || size == 0 {
        0
    } else {
        let wide = rounded(size as nat, excess(size as nat));
        let product = wide * significand(bits);
        let kept = rounded(product, excess(product));
        let shift = excess(size as nat) + excess(product) + places(bits);
        if shift >= 0 {
            held(kept * pow2(shift as nat))
        } else {
            held(kept / pow2((-shift) as nat))
        }
    }
}

/// 2 to the power `k`.
fn power_of_two(k: u64) -> (unit: u64)
    requires
        k < 64,
    ensures
        unit == pow2(k as nat),
        unit >= 1,
{
    let mut unit: u64 = 1;
    let mut i: u64 = 0;
    proof {
        lemma2_to64();
    }
    while i < k
        invariant
            i <= k < 64,
            unit == pow2(i as nat),
            unit >= 1,
        decreases k - i,
    {
        proof {
            lemma_pow2_unfold((i + 1) as nat);
            lemma_pow2_strictly_increases((i + 1) as nat, 64);
            lemma2_to64();
        }
        unit = unit * 2;
        i = i + 1;
    }
    unit
}

/// The single precision number nearest to `n`: a whole number and the power
/// of 2 that it is to be multiplied with.
fn nearest_single(n: u64) -> (r: (u64, u64))
    requires
        n < 0x4000_0000_0000_0000,
    ensures
        r.1 == excess(n as nat),
        r.0 == rounded(n as nat, r.1 as nat),
        r.0 <= n + 1,
        r.1 <= n,
{
    let mut m: u64 = n;
    let mut up: u64 = 0;
    let mut unit: u64 = 1;
    proof {
        lemma2_to64();
    }
    while m >= SINGLE_LIMIT
        invariant
            n < 0x4000_0000_0000_0000,
            excess(n as nat) == up + excess(m as nat),
            unit == pow2(up as nat),
            m * unit <= n,
            up + m <= n,
            1 <= unit <= n + 1,
        decreases m,
    {
        proof {
            lemma_pow2_unfold((up + 1) as nat);
            assert(unit <= n) by (nonlinear_arith)
                requires
                    m * unit <= n,
                    m >= 1,
                    unit >= 0,
            ;
            assert((m / 2) * (unit * 2) <= n) by (nonlinear_arith)
                requires
                    m * unit <= n,
                    m >= 0,
                    unit >= 0,
            ;
            assert(unit * 2 <= n) by (nonlinear_arith)
                requires
                    (m / 2) * (unit * 2) <= n,
                    m / 2 >= 1,
                    unit >= 0,
            ;
        }
        m = m / 2;
        up = up + 1;
        unit = unit * 2;
    }
    let whole: u64 = n / unit;
    let rest: u64 = n % unit;
    assert(whole <= n) by (nonlinear_arith)
        requires
            whole == n / unit,
            unit >= 1,
            n >= 0,
    ;
    if 2 * rest > unit || (2 * rest == unit && whole % 2 == 1) {
        (whole + 1, up)
    } else {
        (whole, up)
    }
}

/// Multiplies a size with a factor that is given as a single precision bit
/// pattern, as single precision arithmetic does, and cuts the product to a
/// whole number.
pub fn scale_by(size: u32, bits: u32) -> (r: u32)
    ensures
        r == scaled_by(size, bits),
{
    let exponent: u32 = (bits / 0x80_0000) % 256;
    let fraction: u32 = bits % 0x80_0000;
    let negative = bits >= 0x8000_0000;
    if exponent == 255 {
        if fraction == 0 && !negative && size > 0 {
            u32::MAX
        } else {
            0
        }
    } else if negative || size == 0 {
        0
    } else {
        let (wide, up) = nearest_single(size as u64);
        let factor: u64 = if exponent == 0 {
            fraction as u64
        } else {
            0x80_0000 + fraction as u64
        };
        assert(wide * factor < 0x4000_0000_0000_0000) by (nonlinear_arith)
            requires
                wide <= 0x1_0000_0000,
                factor < 0x100_0000,
        ;
        let product: u64 = wide * factor;
        let (kept, more) = nearest_single(product);
        let shift: i128 = up as i128 + more as i128 + exponent as i128 - if exponent == 0 {
            149
        } else {
            150
        };
        proof {
            lemma2_to64();
        }
        if shift >= 0 {
            if kept == 0 {
                assert(kept * pow2(shift as nat) == 0) by (nonlinear_arith)
                    requires
                        kept == 0,
                ;
                0
            } else if shift >= 32 {
                proof {
                    if shift > 32 {
                        lemma_pow2_strictly_increases(32, shift as nat);
                    }
                    assert(kept * pow2(shift as nat) >= 0x1_0000_0000) by (nonlinear_arith)
                        requires
                            kept >= 1,
                            pow2(shift as nat) >= 0x1_0000_0000,
                    ;
                }
                u32::MAX
            } else {
                let unit: u64 = power_of_two(shift as u64);
                proof {
                    lemma_pow2_strictly_increases(shift as nat, 32);
                }
                assert(kept * unit < 0x1_0000_0000_0000_0000_0000_0000) by (nonlinear_arith)
                    requires
                        kept < 0x1_0000_0000_0000_0000,
                        unit < 0x1_0000_0000,
                ;
                let value: u128 = kept as u128 * unit as u128;
                if value > u32::MAX as u128 {
                    u32::MAX
                } else {
                    value as u32
                }
            }
        } else {
            let down: i128 = -shift;
            if down >= 64 {
                proof {
                    if down > 64 {
                        lemma_pow2_strictly_increases(64, down as nat);
                    }
                    lemma_basic_div(kept as int, pow2(down as nat) as int);
                }
                0
            } else {
                let unit: u64 = power_of_two(down as u64);
                let value: u64 = kept / unit;
                if value > u32::MAX as u64 {
                    u32::MAX
                } else {
                    value as u32
                }
            }
        }
    }
}

} // verus!
