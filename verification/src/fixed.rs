//! Fixed-point numbers.
//!
//! Every real quantity of the engine (prices, volumes, volatility, liquidity,
//! weights, scores) is a [`Fixed`]: a signed count of millionths. A formula is
//! evaluated exactly on integers and its result is rounded once, to the nearest
//! millionth with ties going upward; a result that leaves the representable
//! range stops at the nearest bound. Comparisons are exact.

use vstd::prelude::*;
use vstd::arithmetic::div_mod::lemma_fundamental_div_mod_converse_div;

verus! {

/// How many units make one whole.
pub const SCALE: i64 = 1_000_000;

/// The integer nearest to `n / d`, ties upward.
pub open spec fn round_div(n: int, d: int) -> int
    recommends
        d > 0,
{
    (2 * n + d) / (2 * d)
}

/// `v` moved to the nearest value that fits in 64 bits.
pub open spec fn saturate(v: int) -> int {
    if v < i64::MIN {
        i64::MIN as int
    } else if v > i64::MAX {
        i64::MAX as int
    } else {
        v
    }
}

/// `v` moved into the unit interval, in millionths.
pub open spec fn clamp_unit(v: int) -> int {
    if v < 0 {
        0
    } else if v > SCALE {
        SCALE as int
    } else {
        v
    }
}

/// The relative change `(last - first) / first` in millionths, and 0 where
/// `first` is 0.
pub open spec fn relative_change(first: int, last: int) -> int {
    if first == 0 {
        0
    } else if first > 0 {
        saturate(round_div((last - first) * SCALE, first))
    } else {
        saturate(round_div((first - last) * SCALE, -first))
    }
}

/// The largest magnitude that [`nearest`] takes.
pub const NEAREST_LIMIT: i128 = 0x1000_0000_0000_0000_0000_0000_0000_0000;

/// `n / d` rounded toward minus infinity.
pub fn floor_div(n: i128, d: i128) -> (q: i128)
    requires
        d > 0,
        n > i128::MIN,
    ensures
        q == n / d,
{
    if n >= 0 {
        n / d
    } else {
        let m: i128 = -n;
        let k: i128 = m / d;
        let r: i128 = m % d;
        if r == 0 {
            proof {
                assert(m == d * k + r) by {
                    vstd::arithmetic::div_mod::lemma_fundamental_div_mod(m as int, d as int);
                }
                assert(n == (-k) * d + 0) by (nonlinear_arith)
                    requires
                        n == -m,
                        m == d * k,
                ;
                lemma_fundamental_div_mod_converse_div(n as int, d as int, -k as int, 0);
            }
            -k
        } else {
            proof {
                assert(m == d * k + r) by {
                    vstd::arithmetic::div_mod::lemma_fundamental_div_mod(m as int, d as int);
                }
                assert(n == (-k - 1) * d + (d - r)) by (nonlinear_arith)
                    requires
                        n == -m,
                        m == d * k + r,
                ;
                lemma_fundamental_div_mod_converse_div(
                    n as int,
                    d as int,
                    -k - 1 as int,
                    d - r as int,
                );
            }
            -k - 1
        }
    }
}

/// `n / d` rounded to the nearest integer, ties upward.
pub fn nearest(n: i128, d: i128) -> (q: i128)
    requires
        0 < d <= NEAREST_LIMIT,
        -NEAREST_LIMIT <= n <= NEAREST_LIMIT,
    ensures
        q == round_div(n as int, d as int),
{
    floor_div(2 * n + d, 2 * d)
}

/// A fixed-point number: `micros` millionths.
#[derive(Clone, Copy, Debug, PartialEq, Eq, PartialOrd, Ord, Hash, Structural)]
pub struct Fixed {
    pub micros: i64,
}

impl View for Fixed {
    type V = int;

    open spec fn view(&self) -> int {
        self.micros as int
    }
}

impl Fixed {
    /// The number that counts `micros` millionths.
    pub fn from_micros(micros: i64) -> (r: Fixed)
        ensures
            r@ == micros,
    {
        Fixed { micros }
    }

    /// Zero.
    pub fn zero() -> (r: Fixed)
        ensures
            r@ == 0,
    {
        Fixed { micros: 0 }
    }

    /// One whole.
    pub fn one() -> (r: Fixed)
        ensures
            r@ == SCALE,
    {
        Fixed { micros: SCALE }
    }

    /// The number nearest to `v` millionths that fits.
    pub fn saturating(v: i128) -> (r: Fixed)
        ensures
            r@ == saturate(v as int),
    {
        if v < i64::MIN as i128 {
            Fixed { micros: i64::MIN }
        } else if v > i64::MAX as i128 {
            Fixed { micros: i64::MAX }
        } else {
            Fixed { micros: v as i64 }
        }
    }

    /// The fraction `num / den`.
    pub fn from_ratio(num: i64, den: i64) -> (r: Fixed)
        requires
            den > 0,
        ensures
            r@ == saturate(round_div(num * SCALE, den as int)),
    {
        assert(-0x8000_0000_0000_0000 * 1_000_000 <= num * SCALE <= 0x8000_0000_0000_0000
            * 1_000_000) by (nonlinear_arith)
            requires
                -0x8000_0000_0000_0000 <= num <= 0x8000_0000_0000_0000,
                SCALE == 1_000_000,
        ;
        Fixed::saturating(nearest((num as i128) * (SCALE as i128), den as i128))
    }

    /// This number times `num / den`.
    pub fn scale(self, num: i32, den: i32) -> (r: Fixed)
        requires
            den > 0,
        ensures
            r@ == saturate(round_div(self@ * num, den as int)),
    {
        let a: i128 = self.micros as i128;
        let b: i128 = num as i128;
        assert(-0x8000_0000_0000_0000 * 0x8000_0000 <= a * b <= 0x8000_0000_0000_0000
            * 0x8000_0000) by (nonlinear_arith)
            requires
                -0x8000_0000_0000_0000 <= a <= 0x8000_0000_0000_0000,
                -0x8000_0000 <= b <= 0x8000_0000,
        ;
        Fixed::saturating(nearest(a * b, den as i128))
    }

    /// This number moved into the unit interval.
    pub fn clamp_unit(self) -> (r: Fixed)
        ensures
            r@ == clamp_unit(self@),
    {
        if self.micros < 0 {
            Fixed { micros: 0 }
        } else if self.micros > SCALE {
            Fixed { micros: SCALE }
        } else {
            self
        }
    }

    /// The relative change from `first` to `last`, and zero where `first` is zero.
    pub fn relative_change(first: Fixed, last: Fixed) -> (r: Fixed)
        ensures
            r@ == relative_change(first@, last@),
    {
        if first.micros == 0 {
            return Fixed { micros: 0 };
        }
        let diff: i128 = last.micros as i128 - first.micros as i128;
        let den: i128 = first.micros as i128;
        assert(-0x1_0000_0000_0000_0000 * 1_000_000 <= diff * SCALE <= 0x1_0000_0000_0000_0000
            * 1_000_000) by (nonlinear_arith)
            requires
                -0x1_0000_0000_0000_0000 <= diff <= 0x1_0000_0000_0000_0000,
                SCALE == 1_000_000,
        ;
        let num: i128 = diff * (SCALE as i128);
        if den > 0 {
            Fixed::saturating(nearest(num, den))
        } else {
            assert((first@ - last@) * SCALE == -num) by (nonlinear_arith)
                requires
                    num == (last@ - first@) * SCALE,
            ;
            Fixed::saturating(nearest(-num, -den))
        }
    }
}

} // verus!
