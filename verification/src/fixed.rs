//! Fixed-point numbers with 32 fractional bits.

use vstd::arithmetic::div_mod::{
    lemma_fundamental_div_mod, lemma_fundamental_div_mod_converse, lemma_mod_bound,
};
use vstd::prelude::*;

verus! {

/// Grid steps per unit: the raw value `SCALE` stands for the number 1.
pub const SCALE: i64 = 4294967296;

/// A real number on the grid of multiples of `1 / SCALE`.
///
/// The number that a value stands for is `raw / SCALE`. The view is the raw
/// count of grid steps, and contracts are stated over that integer.
#[derive(Clone, Copy, Debug, PartialEq, Eq, Structural)]
pub struct Fixed {
    pub raw: i64,
}

impl View for Fixed {
    type V = int;

    open spec fn view(&self) -> int {
        self.raw as int
    }
}

/// The grid point at or just below `num / den`, in grid steps.
pub open spec fn spec_ratio(num: int, den: int) -> int {
    (num * SCALE) / den
}

/// With a negative dividend, rounding the quotient down is the same as
/// rounding the quotient of the magnitudes up.
pub proof fn lemma_div_floor_of_negative(a: int, d: int)
    requires
        a < 0,
        d > 0,
    ensures
        a / d == -((-a + d - 1) / d),
{
    let b = -a + d - 1;
    let q = b / d;
    let r = b % d;
    lemma_fundamental_div_mod(b, d);
    lemma_mod_bound(b, d);
    assert(a == (-q) * d + (d - 1 - r)) by (nonlinear_arith)
        requires
            b == d * q + r,
            b == -a + d - 1,
    ;
    lemma_fundamental_div_mod_converse(a, d, -q, d - 1 - r);
}

/// Division that rounds toward negative infinity.
pub(crate) fn div_floor(a: i128, d: i128) -> (q: i128)
    requires
        d > 0,
        a >= i128::MIN + d,
    ensures
        q == a / d,
{
    if a >= 0 {
        a / d
    } else {
        proof {
            lemma_div_floor_of_negative(a as int, d as int);
        }
        let up: i128 = (-a + (d - 1)) / d;
        -up
    }
}

impl Fixed {
    /// The whole number `n`, where it lies within the range of the grid.
    pub fn from_int(n: i64) -> (f: Option<Fixed>)
        ensures
            f is Some <==> -2147483648 <= n < 2147483648,
            f matches Some(v) ==> v@ == n * SCALE,
    {
        if -2147483648 <= n && n < 2147483648 {
            Some(Fixed { raw: n * SCALE })
        } else {
            None
        }
    }

    /// The grid point at or just below the fraction `num / den`.
    ///
    /// The denominator must be positive, and the result must lie within the
    /// range of the grid.
    pub fn from_ratio(num: i64, den: i64) -> (f: Option<Fixed>)
        ensures
            f is Some <==> den > 0 && i64::MIN <= spec_ratio(num as int, den as int) <= i64::MAX,
            f matches Some(v) ==> v@ == spec_ratio(num as int, den as int),
    {
        if den <= 0 {
            return None;
        }
        assert(-0x8000_0000_0000_0000 * 0x1_0000_0000 <= num * SCALE <= 0x8000_0000_0000_0000
            * 0x1_0000_0000) by (nonlinear_arith)
            requires
                -0x8000_0000_0000_0000 <= num < 0x8000_0000_0000_0000,
                SCALE == 0x1_0000_0000,
        ;
        let scaled: i128 = (num as i128) * (SCALE as i128);
        let q: i128 = div_floor(scaled, den as i128);
        if q < i64::MIN as i128 || q > i64::MAX as i128 {
            None
        } else {
            Some(Fixed { raw: q as i64 })
        }
    }
}

} // verus!
