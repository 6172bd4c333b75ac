//! The sampled region of the complex plane and the mapping from pixel
//! indices to coordinates in it.

use crate::fixed::{div_floor, spec_ratio, Fixed, SCALE};
use vstd::arithmetic::div_mod::{lemma_div_is_ordered, lemma_div_multiples_vanish};
use vstd::prelude::*;

verus! {

/// The rectangle of the complex plane that an image samples.
#[derive(Clone, Copy, Debug, PartialEq, Eq, Structural)]
pub struct Viewport {
    pub x_min: Fixed,
    pub x_max: Fixed,
    pub y_min: Fixed,
    pub y_max: Fixed,
}

impl Viewport {
    /// Both sides of the rectangle have positive length.
    pub open spec fn valid(&self) -> bool {
        self.x_min@ < self.x_max@ && self.y_min@ < self.y_max@
    }

    /// The customary frame of the set, in grid steps: real parts from -2.2
    /// to 1.2 and imaginary parts from -2 to 2, each bound at or just below
    /// its decimal value.
    pub open spec fn spec_standard() -> Viewport {
        Viewport {
            x_min: Fixed { raw: (-9448928052i64) },
            x_max: Fixed { raw: 5153960755i64 },
            y_min: Fixed { raw: (-8589934592i64) },
            y_max: Fixed { raw: 8589934592i64 },
        }
    }

    /// The customary frame of the set: real parts from -2.2 to 1.2 and
    /// imaginary parts from -2 to 2, each bound at or just below its
    /// decimal value.
    pub fn standard() -> (frame: Viewport)
        ensures
            frame == Viewport::spec_standard(),
            frame.valid(),
            frame.x_min@ == spec_ratio(-22, 10),
            frame.x_max@ == spec_ratio(12, 10),
            frame.y_min@ == -2 * SCALE,
            frame.y_max@ == 2 * SCALE,
    {
        Viewport {
            x_min: Fixed { raw: -9448928052 },
            x_max: Fixed { raw: 5153960755 },
            y_min: Fixed { raw: -8589934592 },
            y_max: Fixed { raw: 8589934592 },
        }
    }

    /// Whether both sides of the rectangle have positive length.
    pub fn is_valid(&self) -> (ok: bool)
        ensures
            ok == self.valid(),
    {
        self.x_min.raw < self.x_max.raw && self.y_min.raw < self.y_max.raw
    }
}

/// The coordinate of pixel `i` on an axis of `n` pixels that spans `lo..=hi`:
/// `lo + (i / (n - 1)) * (hi - lo)`, rounded down to the grid.
pub open spec fn spec_map_coordinate(i: int, n: int, lo: int, hi: int) -> int {
    lo + (i * (hi - lo)) / (n - 1)
}

/// A mapped coordinate lies between the two bounds, whichever is the larger.
pub proof fn lemma_map_coordinate_between(i: int, n: int, lo: int, hi: int)
    requires
        n >= 2,
        0 <= i < n,
    ensures
        lo <= hi ==> lo <= spec_map_coordinate(i, n, lo, hi) <= hi,
        hi <= lo ==> hi <= spec_map_coordinate(i, n, lo, hi) <= lo,
{
    let d = hi - lo;
    let last = n - 1;
    lemma_div_multiples_vanish(d, last);
    lemma_div_multiples_vanish(0, last);
    if d >= 0 {
        assert(0 <= i * d <= last * d) by (nonlinear_arith)
            requires
                0 <= i <= last,
                d >= 0,
        ;
        lemma_div_is_ordered(0, i * d, last);
        lemma_div_is_ordered(i * d, last * d, last);
    } else {
        assert(last * d <= i * d <= 0) by (nonlinear_arith)
            requires
                0 <= i <= last,
                d < 0,
        ;
        lemma_div_is_ordered(i * d, 0, last);
        lemma_div_is_ordered(last * d, i * d, last);
    }
}

/// The first pixel of an axis maps to the first bound and the last pixel to
/// the second, exactly.
pub proof fn lemma_map_coordinate_ends(n: int, lo: int, hi: int)
    requires
        n >= 2,
    ensures
        spec_map_coordinate(0, n, lo, hi) == lo,
        spec_map_coordinate(n - 1, n, lo, hi) == hi,
{
    lemma_div_multiples_vanish(hi - lo, n - 1);
    lemma_div_multiples_vanish(0, n - 1);
    assert(0 * (hi - lo) == (n - 1) * 0) by (nonlinear_arith);
}

/// Every pixel of an axis maps into `lo..=hi`; the first pixel maps to `lo`
/// and the last to `hi`, exactly.
pub proof fn lemma_map_coordinate_range(i: int, n: int, lo: int, hi: int)
    requires
        n >= 2,
        0 <= i < n,
        lo <= hi,
    ensures
        lo <= spec_map_coordinate(i, n, lo, hi) <= hi,
        spec_map_coordinate(0, n, lo, hi) == lo,
        spec_map_coordinate(n - 1, n, lo, hi) == hi,
{
    lemma_map_coordinate_between(i, n, lo, hi);
    lemma_map_coordinate_ends(n, lo, hi);
}

/// Maps the pixel index `i` of an axis of `n` pixels to its coordinate
/// between the bounds `lo` and `hi`.
///
/// An axis needs at least two pixels, and `i` is one of them.
pub fn map_coordinate(i: u32, n: u32, lo: Fixed, hi: Fixed) -> (coord: Fixed)
    requires
        n >= 2,
        i < n,
    ensures
        coord@ == spec_map_coordinate(i as int, n as int, lo@, hi@),
        lo@ <= hi@ ==> lo@ <= coord@ <= hi@,
        hi@ <= lo@ ==> hi@ <= coord@ <= lo@,
        i == 0 ==> coord == lo,
        i == n - 1 ==> coord == hi,
{
    let span: i128 = hi.raw as i128 - lo.raw as i128;
    assert(-0x1_0000_0000_0000_0000_0000_0000 <= i * span <= 0x1_0000_0000_0000_0000_0000_0000)
        by (nonlinear_arith)
        requires
            0 <= i < 0x1_0000_0000,
            -0x1_0000_0000_0000_0000 <= span <= 0x1_0000_0000_0000_0000,
    ;
    let scaled: i128 = (i as i128) * span;
    let offset: i128 = div_floor(scaled, (n - 1) as i128);
    proof {
        lemma_map_coordinate_between(i as int, n as int, lo@, hi@);
        lemma_map_coordinate_ends(n as int, lo@, hi@);
    }
    Fixed { raw: (lo.raw as i128 + offset) as i64 }
}

} // verus!
