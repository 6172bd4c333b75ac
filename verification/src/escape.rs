//! Escape-time evaluation of the map `z -> z^2 + c`.
//!
//! The orbit of a point `c` starts at `z_0 = c`. The escape time is the first
//! index at which the orbit lies outside the circle of the given radius, or
//! the iteration limit when it never does within that many steps.

use crate::fixed::{div_floor, Fixed, SCALE};
use vstd::prelude::*;

verus! {

/// A point of the complex plane on the fixed-point grid.
#[derive(Clone, Copy, Debug, PartialEq, Eq, Structural)]
pub struct Complex {
    pub re: Fixed,
    pub im: Fixed,
}

impl View for Complex {
    type V = (int, int);

    open spec fn view(&self) -> (int, int) {
        (self.re@, self.im@)
    }
}

/// One step of the map: `z^2 + c` in grid steps, where
/// `(a + bi)^2 = (a^2 - b^2) + 2abi` and each part is rounded down to the grid.
pub open spec fn spec_step(z: (int, int), c: (int, int)) -> (int, int) {
    ((z.0 * z.0 - z.1 * z.1) / (SCALE as int) + c.0, (2 * (z.0 * z.1)) / (SCALE as int) + c.1)
}

/// The `k`-th point of the orbit of `c`.
pub open spec fn spec_orbit(c: (int, int), k: nat) -> (int, int)
    decreases k,
{
    if k == 0 {
        c
    } else {
        spec_step(spec_orbit(c, (k - 1) as nat), c)
    }
}

/// Whether the magnitude of `z` exceeds the radius `r`. For a radius that is
/// not negative the magnitudes are compared by their squares.
pub open spec fn spec_escaped(z: (int, int), r: int) -> bool {
    r < 0 || z.0 * z.0 + z.1 * z.1 > r * r
}

/// The first index in `from..m` at which the orbit of `c` has escaped, or `m`.
pub open spec fn spec_first_escape(c: (int, int), r: int, m: nat, from: nat) -> nat
    decreases m - from,
{
    if from >= m {
        m
    } else if spec_escaped(spec_orbit(c, from), r) {
        from
    } else {
        spec_first_escape(c, r, m, from + 1)
    }
}

/// The escape time of `c` under the iteration limit `m` and the radius `r`.
pub open spec fn spec_escape_time(c: (int, int), m: nat, r: int) -> nat {
    spec_first_escape(c, r, m, 0)
}

/// `k` is the smallest index below `m` at which the orbit has escaped, or it
/// is `m` and the orbit has not escaped at any index below `m`.
pub open spec fn is_escape_time(c: (int, int), m: nat, r: int, k: nat) -> bool {
    &&& k <= m
    &&& forall|j: nat| j < k ==> !spec_escaped(#[trigger] spec_orbit(c, j), r)
    &&& k < m ==> spec_escaped(spec_orbit(c, k), r)
}

proof fn lemma_first_escape_from(c: (int, int), r: int, m: nat, from: nat)
    requires
        from <= m,
    ensures
        from <= spec_first_escape(c, r, m, from) <= m,
        forall|j: nat|
            from <= j < spec_first_escape(c, r, m, from) ==> !spec_escaped(
                #[trigger] spec_orbit(c, j),
                r,
            ),
        spec_first_escape(c, r, m, from) < m ==> spec_escaped(
            spec_orbit(c, spec_first_escape(c, r, m, from)),
            r,
        ),
    decreases m - from,
{
    if from < m && !spec_escaped(spec_orbit(c, from), r) {
        lemma_first_escape_from(c, r, m, from + 1);
    }
}

/// The escape time is the first index at which the orbit has escaped.
pub proof fn lemma_escape_time_is_first(c: (int, int), m: nat, r: int)
    ensures
        is_escape_time(c, m, r, spec_escape_time(c, m, r)),
{
    lemma_first_escape_from(c, r, m, 0);
}

/// Only one index can be the escape time.
pub proof fn lemma_escape_time_unique(c: (int, int), m: nat, r: int, k: nat)
    requires
        is_escape_time(c, m, r, k),
    ensures
        k == spec_escape_time(c, m, r),
{
    lemma_escape_time_is_first(c, m, r);
    let t = spec_escape_time(c, m, r);
    if k < t {
        assert(!spec_escaped(spec_orbit(c, k), r));
    } else if t < k {
        assert(!spec_escaped(spec_orbit(c, t), r));
    }
}

proof fn lemma_within_radius(a: int, b: int, r: int)
    by (nonlinear_arith)
    requires
        0 <= r,
        a * a + b * b <= r * r,
    ensures
        -r <= a <= r,
        -r <= b <= r,
{
}

proof fn lemma_beyond_radius(a: int, b: int, r: int)
    by (nonlinear_arith)
    requires
        0 <= r,
        a > r || a < -r,
    ensures
        a * a + b * b > r * r,
{
}

proof fn lemma_product_bounds(a: int, b: int, r: int)
    by (nonlinear_arith)
    requires
        0 <= r <= 0x7fff_ffff_ffff_ffff,
        -r <= a <= r,
        -r <= b <= r,
    ensures
        0 <= a * a <= 0x3fff_ffff_ffff_ffff_0000_0000_0000_0001,
        0 <= b * b <= 0x3fff_ffff_ffff_ffff_0000_0000_0000_0001,
        -0x3fff_ffff_ffff_ffff_0000_0000_0000_0001 <= a * b
            <= 0x3fff_ffff_ffff_ffff_0000_0000_0000_0001,
        0 <= r * r <= 0x3fff_ffff_ffff_ffff_0000_0000_0000_0001,
{
}

/// Whether the point `zr + zi i` lies outside the circle of radius `r`.
fn beyond_radius(zr: i128, zi: i128, r: i64) -> (out: bool)
    requires
        -0x1_0000_0000_0000_0000_0000_0000 <= zr <= 0x1_0000_0000_0000_0000_0000_0000,
        -0x1_0000_0000_0000_0000_0000_0000 <= zi <= 0x1_0000_0000_0000_0000_0000_0000,
    ensures
        out == spec_escaped((zr as int, zi as int), r as int),
{
    if r < 0 {
        return true;
    }
    let lim: i128 = r as i128;
    if zr > lim || zr < -lim {
        proof {
            lemma_beyond_radius(zr as int, zi as int, r as int);
        }
        return true;
    }
    if zi > lim || zi < -lim {
        proof {
            lemma_beyond_radius(zi as int, zr as int, r as int);
        }
        return true;
    }
    proof {
        lemma_product_bounds(zr as int, zi as int, r as int);
    }
    let norm: i128 = zr * zr + zi * zi;
    norm > lim * lim
}

/// The escape time of the point `c`: the number of iterations of
/// `z -> z^2 + c`, starting at `z = c`, before the magnitude of `z` exceeds
/// `r`, capped at `m`.
pub fn mandelbrot(c: Complex, m: u64, r: Fixed) -> (k: u64)
    ensures
        k == spec_escape_time(c@, m as nat, r@),
        is_escape_time(c@, m as nat, r@, k as nat),
{
    let mut zr: i128 = c.re.raw as i128;
    let mut zi: i128 = c.im.raw as i128;
    let mut k: u64 = 0;
    while k < m
        invariant
            k <= m,
            (zr as int, zi as int) == spec_orbit(c@, k as nat),
            forall|j: nat| j < k ==> !spec_escaped(#[trigger] spec_orbit(c@, j), r@),
            -0x1_0000_0000_0000_0000_0000_0000 <= zr <= 0x1_0000_0000_0000_0000_0000_0000,
            -0x1_0000_0000_0000_0000_0000_0000 <= zi <= 0x1_0000_0000_0000_0000_0000_0000,
        decreases m - k,
    {
        if beyond_radius(zr, zi, r.raw) {
            proof {
                lemma_escape_time_unique(c@, m as nat, r@, k as nat);
            }
            return k;
        }
        proof {
            lemma_within_radius(zr as int, zi as int, r@);
            lemma_product_bounds(zr as int, zi as int, r@);
        }
        let re_sq: i128 = zr * zr - zi * zi;
        let im_sq: i128 = 2 * (zr * zi);
        let next_re: i128 = div_floor(re_sq, SCALE as i128) + c.re.raw as i128;
        let next_im: i128 = div_floor(im_sq, SCALE as i128) + c.im.raw as i128;
        assert((next_re as int, next_im as int) == spec_step((zr as int, zi as int), c@));
        zr = next_re;
        zi = next_im;
        k = k + 1;
    }
    proof {
        lemma_escape_time_unique(c@, m as nat, r@, k as nat);
    }
    k
}

/// A larger radius never shortens the escape time.
pub proof fn lemma_escape_time_monotonic_in_radius(c: (int, int), m: nat, r1: int, r2: int)
    requires
        r1 <= r2,
    ensures
        spec_escape_time(c, m, r1) <= spec_escape_time(c, m, r2),
{
    lemma_escape_time_is_first(c, m, r1);
    lemma_escape_time_is_first(c, m, r2);
    let t1 = spec_escape_time(c, m, r1);
    let t2 = spec_escape_time(c, m, r2);
    if t2 < t1 {
        let z = spec_orbit(c, t2);
        assert(spec_escaped(z, r2));
        assert(!spec_escaped(z, r1));
        assert(r1 * r1 <= r2 * r2) by (nonlinear_arith)
            requires
                0 <= r1 <= r2,
        ;
    }
}

/// The orbit of the origin stays at the origin.
pub proof fn lemma_origin_is_fixed(k: nat)
    ensures
        spec_orbit((0, 0), k) == (0int, 0int),
    decreases k,
{
    if k > 0 {
        lemma_origin_is_fixed((k - 1) as nat);
    }
}

/// The origin never escapes a radius that is not negative: its escape time
/// is the iteration limit.
pub proof fn lemma_origin_never_escapes(m: nat, r: int)
    requires
        r >= 0,
    ensures
        spec_escape_time((0, 0), m, r) == m,
{
    assert forall|j: nat| j < m implies !spec_escaped(#[trigger] spec_orbit((0, 0), j), r) by {
        lemma_origin_is_fixed(j);
        assert(r * r >= 0) by (nonlinear_arith);
    }
    lemma_escape_time_unique((0, 0), m, r, m);
}

/// A point that lies outside the circle has escaped before the first step:
/// with at least one iteration allowed its escape time is zero.
pub proof fn lemma_outside_escapes_at_once(c: (int, int), m: nat, r: int)
    requires
        m > 0,
        spec_escaped(c, r),
    ensures
        spec_escape_time(c, m, r) == 0,
{
}

} // verus!
