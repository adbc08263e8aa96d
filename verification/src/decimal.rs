//! Decimals from the numbers of a request, without loss.
//!
//! A double is a whole number times a power of two. It is a decimal exactly
//! when, written with a power of ten below it, its mantissa fits 96 bits and
//! its scale is at most 28.

use crate::json::Number;
use crate::value::Decimal;
use vstd::prelude::*;

verus! {

/// The largest mantissa of a decimal: 96 bits, all set.
pub const MAX_MANTISSA: u128 = 0xffff_ffff_ffff_ffff_ffff_ffff;

/// The largest scale of a decimal.
pub const MAX_SCALE: u32 = 28;

/// Two to the power 52: the weight of the hidden bit of a double.
pub const HIDDEN_BIT: u64 = 0x10_0000_0000_0000;

/// `base` to the power `e`.
pub open spec fn pow(base: nat, e: nat) -> nat
    decreases e,
{
    if e == 0 {
        1
    } else {
        base * pow(base, (e - 1) as nat)
    }
}

/// The exponent field of a double: bits 52 to 62.
pub open spec fn exponent_field(bits: u64) -> nat {
    ((bits / HIDDEN_BIT) % 2048) as nat
}

/// Whether the double is a number: neither infinite nor NaN.
pub open spec fn is_finite(bits: u64) -> bool {
    exponent_field(bits) != 2047
}

/// Whether the sign bit of the double is set.
pub open spec fn is_negative(bits: u64) -> bool {
    bits >= 0x8000_0000_0000_0000
}

/// The whole number `m` of a finite double `m` times two to the `e`.
pub open spec fn significand(bits: u64) -> nat {
    if exponent_field(bits) == 0 {
        (bits % HIDDEN_BIT) as nat
    } else {
        (bits % HIDDEN_BIT + HIDDEN_BIT) as nat
    }
}

/// The exponent `e` of a finite double `m` times two to the `e`.
pub open spec fn exponent(bits: u64) -> int {
    if exponent_field(bits) == 0 {
        -1074
    } else {
        exponent_field(bits) - 1075
    }
}

/// `m` times two to the `e` with every factor two taken out of `m` that a
/// negative `e` can take up.
pub open spec fn reduced(m: nat, e: int) -> (nat, int)
    decreases m,
{
    if m > 0 && m % 2 == 0 && e < 0 {
        reduced(m / 2, e + 1)
    } else {
        (m, e)
    }
}

/// The mantissa with the sign of the double.
pub open spec fn signed(negative: bool, magnitude: nat) -> int {
    if negative {
        -magnitude
    } else {
        magnitude as int
    }
}

/// The decimal that is the double, where there is one.
pub open spec fn decimal_of_double(bits: u64) -> Option<Decimal> {
    if !is_finite(bits) {
        None
    } else if significand(bits) == 0 {
        Some(Decimal { mantissa: 0, scale: 0 })
    } else {
        let (m, e) = reduced(significand(bits), exponent(bits));
        if e >= 0 {
            if m * pow(2, e as nat) <= MAX_MANTISSA {
                Some(
                    Decimal {
                        mantissa: signed(is_negative(bits), m * pow(2, e as nat)) as i128,
                        scale: 0,
                    },
                )
            } else {
                None
            }
        } else if -e <= MAX_SCALE && m * pow(5, (-e) as nat) <= MAX_MANTISSA {
            Some(
                Decimal {
                    mantissa: signed(is_negative(bits), m * pow(5, (-e) as nat)) as i128,
                    scale: (-e) as u32,
                },
            )
        } else {
            None
        }
    }
}

/// The decimal that is the number, where there is one.
pub open spec fn decimal_of_number(n: Number) -> Option<Decimal> {
    match n {
        Number::PosInt(i) => Some(Decimal { mantissa: i as i128, scale: 0 }),
        Number::NegInt(i) => Some(Decimal { mantissa: i as i128, scale: 0 }),
        Number::Float(bits) => decimal_of_double(bits),
    }
}

/// A power grows with its exponent.
proof fn pow_grows(base: nat, i: nat, j: nat)
    requires
        base >= 1,
        i <= j,
    ensures
        1 <= pow(base, i) <= pow(base, j),
    decreases j,
{
    if i == 0 {
        if j > 0 {
            pow_grows(base, 0, (j - 1) as nat);
            assert(pow(base, (j - 1) as nat) <= base * pow(base, (j - 1) as nat))
                by (nonlinear_arith)
                requires
                    base >= 1,
            ;
        }
    } else {
        pow_grows(base, (i - 1) as nat, (j - 1) as nat);
        assert(base * pow(base, (i - 1) as nat) <= base * pow(base, (j - 1) as nat))
            by (nonlinear_arith)
            requires
                pow(base, (i - 1) as nat) <= pow(base, (j - 1) as nat),
        ;
        assert(1 <= base * pow(base, (i - 1) as nat)) by (nonlinear_arith)
            requires
                base >= 1,
                1 <= pow(base, (i - 1) as nat),
        ;
    }
}

/// `m` times a power of `base`, or nothing where that is above the largest
/// mantissa.
fn scaled(m: u64, base: u8, e: u32) -> (r: Option<u128>)
    requires
        m >= 1,
        base == 2 || base == 5,
    ensures
        match r {
            Some(p) => p == m * pow(base as nat, e as nat) && p <= MAX_MANTISSA,
            None => m * pow(base as nat, e as nat) > MAX_MANTISSA,
        },
{
    let mut acc: u128 = m as u128;
    let mut i: u32 = 0;
    proof {
        let one = pow(base as nat, 0);
        assert(one == 1);
        assert(m * one == m) by (nonlinear_arith)
            requires
                one == 1,
        ;
    }
    while i < e
        invariant
            i <= e,
            m >= 1,
            base == 2 || base == 5,
            acc == m * pow(base as nat, i as nat),
            acc <= MAX_MANTISSA,
        decreases e - i,
    {
        if acc > MAX_MANTISSA / (base as u128) {
            proof {
                let b = base as nat;
                pow_grows(b, (i + 1) as nat, e as nat);
                assert(MAX_MANTISSA / 2 == 0x7fff_ffff_ffff_ffff_ffff_ffff);
                assert(MAX_MANTISSA / 5 == 0x3333_3333_3333_3333_3333_3333);
                assert(acc * b > MAX_MANTISSA);
                assert(m * pow(b, (i + 1) as nat) == acc * b) by (nonlinear_arith)
                    requires
                        acc == m * pow(b, i as nat),
                        pow(b, (i + 1) as nat) == b * pow(b, i as nat),
                ;
                assert(m * pow(b, (i + 1) as nat) <= m * pow(b, e as nat)) by (nonlinear_arith)
                    requires
                        pow(b, (i + 1) as nat) <= pow(b, e as nat),
                ;
            }
            return None;
        }
        proof {
            let b = base as nat;
            assert(m * pow(b, (i + 1) as nat) == acc * b) by (nonlinear_arith)
                requires
                    acc == m * pow(b, i as nat),
                    pow(b, (i + 1) as nat) == b * pow(b, i as nat),
            ;
        }
        acc = acc * (base as u128);
        i += 1;
    }
    Some(acc)
}

/// The decimal that is the double with these bits, where there is one.
pub fn decimal_from_double(bits: u64) -> (r: Option<Decimal>)
    ensures
        r == decimal_of_double(bits),
{
    let field = (bits / HIDDEN_BIT) % 2048;
    if field == 2047 {
        return None;
    }
    let negative = bits >= 0x8000_0000_0000_0000;
    let fraction = bits % HIDDEN_BIT;
    let mut m: u64 = if field == 0 {
        fraction
    } else {
        fraction + HIDDEN_BIT
    };
    if m == 0 {
        return Some(Decimal { mantissa: 0, scale: 0 });
    }
    let mut e: i64 = if field == 0 {
        -1074
    } else {
        field as i64 - 1075
    };
    while e < 0 && m % 2 == 0
        invariant
            m >= 1,
            -1074 <= e <= 972,
            reduced(m as nat, e as int) == reduced(significand(bits), exponent(bits)),
        decreases m,
    {
        m = m / 2;
        e = e + 1;
    }
    if e >= 0 {
        match scaled(m, 2, e as u32) {
            Some(p) => Some(
                Decimal {
                    mantissa: if negative {
                        -(p as i128)
                    } else {
                        p as i128
                    },
                    scale: 0,
                },
            ),
            None => None,
        }
    } else if -e > 28 {
        None
    } else {
        match scaled(m, 5, (-e) as u32) {
            Some(p) => Some(
                Decimal {
                    mantissa: if negative {
                        -(p as i128)
                    } else {
                        p as i128
                    },
                    scale: (-e) as u32,
                },
            ),
            None => None,
        }
    }
}

/// The decimal that is the number, where there is one.
pub fn decimal_from_number(n: Number) -> (r: Option<Decimal>)
    ensures
        r == decimal_of_number(n),
{
    match n {
        Number::PosInt(i) => Some(Decimal { mantissa: i as i128, scale: 0 }),
        Number::NegInt(i) => Some(Decimal { mantissa: i as i128, scale: 0 }),
        Number::Float(bits) => decimal_from_double(bits),
    }
}

} // verus!
