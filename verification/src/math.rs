//! Fixed-point constants and checked integer helpers shared by the protocol.
use vstd::prelude::*;

verus! {

/// Fixed-point scale used for rates, factors and utilization (1e8 == 100%).
pub const SCALE: i128 = 100_000_000;

/// Basis-point scale (10_000 == 100%).
pub const BPS: i128 = 10_000;

/// Seconds in a (non-leap) year, the accrual period of all annual rates.
pub const SECONDS_PER_YEAR: i128 = 31_536_000;

/// Seconds in a day.
pub const SECONDS_PER_DAY: u64 = 86_400;

/// Rust's truncating division on mathematical integers (divisor must be non-zero).
pub open spec fn tdiv(a: int, b: int) -> int
    recommends
        b != 0,
{
    if b > 0 {
        if a >= 0 {
            a / b
        } else {
            -((-a) / b)
        }
    } else {
        if a >= 0 {
            -(a / (-b))
        } else {
            (-a) / (-b)
        }
    }
}

/// The value `x` saturated into the range of `i128`.
pub open spec fn sat(x: int) -> int {
    if x > i128::MAX {
        i128::MAX as int
    } else if x < i128::MIN {
        i128::MIN as int
    } else {
        x
    }
}

/// `x` clamped into `[lo, hi]` (lower bound applied last).
pub open spec fn clamp(x: int, lo: int, hi: int) -> int {
    if x < lo {
        lo
    } else if x > hi {
        hi
    } else {
        x
    }
}

pub open spec fn min_int(a: int, b: int) -> int {
    if a <= b {
        a
    } else {
        b
    }
}

pub open spec fn max_int(a: int, b: int) -> int {
    if a >= b {
        a
    } else {
        b
    }
}

/// `i128::saturating_add`.
pub fn sat_add(a: i128, b: i128) -> (r: i128)
    ensures
        r == sat(a + b),
{
    match a.checked_add(b) {
        Some(v) => v,
        None => {
            if b > 0 {
                i128::MAX
            } else {
                i128::MIN
            }
        },
    }
}

/// `i128::saturating_sub`.
pub fn sat_sub(a: i128, b: i128) -> (r: i128)
    ensures
        r == sat(a - b),
{
    match a.checked_sub(b) {
        Some(v) => v,
        None => {
            if b < 0 {
                i128::MAX
            } else {
                i128::MIN
            }
        },
    }
}

/// `i128::saturating_mul`.
pub fn sat_mul(a: i128, b: i128) -> (r: i128)
    ensures
        r == sat(a * b),
{
    match a.checked_mul(b) {
        Some(v) => v,
        None => {
            if (a > 0 && b > 0) || (a < 0 && b < 0) {
                proof {
                    if a > 0 && b > 0 {
                        assert(a * b > 0) by (nonlinear_arith)
                            requires
                                a > 0,
                                b > 0,
                        ;
                    } else {
                        assert(a * b > 0) by (nonlinear_arith)
                            requires
                                a < 0,
                                b < 0,
                        ;
                    }
                }
                i128::MAX
            } else {
                proof {
                    if a >= 0 && b <= 0 {
                        assert(a * b <= 0) by (nonlinear_arith)
                            requires
                                a >= 0,
                                b <= 0,
                        ;
                    } else {
                        assert(a * b <= 0) by (nonlinear_arith)
                            requires
                                a <= 0,
                                b >= 0,
                        ;
                    }
                }
                i128::MIN
            }
        },
    }
}

/// `u64::saturating_sub`.
pub fn sat_sub_u64(a: u64, b: u64) -> (r: u64)
    ensures
        r == (if a >= b { (a - b) as int } else { 0 }),
{
    if a >= b {
        a - b
    } else {
        0
    }
}

/// `u64::saturating_add`.
pub fn sat_add_u64(a: u64, b: u64) -> (r: u64)
    ensures
        r == (if a + b <= u64::MAX { (a + b) as int } else { u64::MAX as int }),
{
    if a <= u64::MAX - b {
        a + b
    } else {
        u64::MAX
    }
}

/// Truncating division of a saturated dividend by a positive divisor never overflows.
pub fn div_pos(a: i128, b: i128) -> (r: i128)
    requires
        b > 0,
    ensures
        r == tdiv(a as int, b as int),
{
    a / b
}

/// Rust's `a / b` on `i128` for any divisor, written through positive divisors only.
pub fn div_trunc(a: i128, b: i128) -> (r: i128)
    requires
        b != 0,
        !(a == i128::MIN && b == -1),
    ensures
        r == tdiv(a as int, b as int),
{
    if b > 0 {
        a / b
    } else if b == i128::MIN {
        if a == i128::MIN {
            1
        } else {
            proof {
                assert(-(b as int) > a) ;
                if a >= 0 {
                    assert(a as int / (-(b as int)) == 0) by (nonlinear_arith)
                        requires
                            0 <= a < -(b as int),
                    ;
                } else {
                    assert((-(a as int)) / (-(b as int)) == 0) by (nonlinear_arith)
                        requires
                            0 < -(a as int) < -(b as int),
                    ;
                }
            }
            0
        }
    } else {
        let nb: i128 = -b;
        let q: i128 = a / nb;
        proof {
            if a >= 0 {
                assert(q as int <= a) by (nonlinear_arith)
                    requires
                        q == (a as int) / (nb as int),
                        a >= 0,
                        nb >= 1,
                ;
            } else {
                assert(q as int >= a) by (nonlinear_arith)
                    requires
                        q == -((-(a as int)) / (nb as int)),
                        a < 0,
                        nb >= 1,
                ;
            }
            if a < 0 && nb >= 2 {
                assert((-(a as int)) / (nb as int) < -(a as int)) by (nonlinear_arith)
                    requires
                        a < 0,
                        nb >= 2,
                ;
            }
            assert(q != i128::MIN);
        }
        -q
    }
}

} // verus!
