//! Mapping of escape times to grey shades.

use vstd::arithmetic::div_mod::{lemma_div_is_ordered, lemma_div_multiples_vanish};
use vstd::prelude::*;

verus! {

/// A colour with eight bits for each of red, green and blue.
#[derive(Clone, Copy, Debug, PartialEq, Eq, Structural)]
pub struct Rgb {
    pub r: u8,
    pub g: u8,
    pub b: u8,
}

/// The shade of black.
pub const BLACK: u8 = 0;

/// The shade of white.
pub const WHITE: u8 = 255;

/// How an escape time becomes a shade.
///
/// The binary policies tell points that escaped from points that did not:
/// `Binary` paints the former black and the latter white, and
/// `BinaryInverted` swaps the two. The gradient policies scale the escape
/// time to the range of shades: `Gradient` runs from black at zero to white
/// at the iteration limit, and `GradientInverted` runs the other way.
#[derive(Clone, Copy, Debug, PartialEq, Eq, Structural)]
pub enum ColorPolicy {
    Binary,
    BinaryInverted,
    Gradient,
    GradientInverted,
}

impl ColorPolicy {
    /// The policy that two flags select.
    pub open spec fn spec_new(dynamic: bool, inverted: bool) -> ColorPolicy {
        if dynamic {
            if inverted {
                ColorPolicy::GradientInverted
            } else {
                ColorPolicy::Gradient
            }
        } else {
            if inverted {
                ColorPolicy::BinaryInverted
            } else {
                ColorPolicy::Binary
            }
        }
    }

    /// Whether shades follow the escape time.
    pub open spec fn dynamic(&self) -> bool {
        *self == ColorPolicy::Gradient || *self == ColorPolicy::GradientInverted
    }

    /// Whether shades are inverted.
    pub open spec fn inverted(&self) -> bool {
        *self == ColorPolicy::BinaryInverted || *self == ColorPolicy::GradientInverted
    }

    /// The policy with the same mode and the opposite inversion.
    pub open spec fn opposite(&self) -> ColorPolicy {
        ColorPolicy::spec_new(self.dynamic(), !self.inverted())
    }

    /// The policy selected by the flags `dynamic` (gradient shading) and
    /// `inverted`.
    pub fn new(dynamic: bool, inverted: bool) -> (policy: ColorPolicy)
        ensures
            policy == ColorPolicy::spec_new(dynamic, inverted),
            policy.dynamic() == dynamic,
            policy.inverted() == inverted,
    {
        if dynamic {
            if inverted {
                ColorPolicy::GradientInverted
            } else {
                ColorPolicy::Gradient
            }
        } else {
            if inverted {
                ColorPolicy::BinaryInverted
            } else {
                ColorPolicy::Binary
            }
        }
    }

    /// Whether shades follow the escape time.
    pub fn is_dynamic(&self) -> (dynamic: bool)
        ensures
            dynamic == self.dynamic(),
    {
        match self {
            ColorPolicy::Gradient | ColorPolicy::GradientInverted => true,
            ColorPolicy::Binary | ColorPolicy::BinaryInverted => false,
        }
    }

    /// Whether shades are inverted.
    pub fn is_inverted(&self) -> (inverted: bool)
        ensures
            inverted == self.inverted(),
    {
        match self {
            ColorPolicy::BinaryInverted | ColorPolicy::GradientInverted => true,
            ColorPolicy::Binary | ColorPolicy::Gradient => false,
        }
    }
}

/// The shade before inversion for the escape time `mb` under the limit `m`.
///
/// In binary mode a point that escaped (`mb < m`) is black and one that did
/// not is white. In gradient mode the shade is `(mb / m) * 255`, rounded down.
pub open spec fn spec_plain_shade(mb: int, m: int, dynamic: bool) -> int {
    if dynamic {
        (mb * 255) / m
    } else if mb < m {
        BLACK as int
    } else {
        WHITE as int
    }
}

/// The shade for the escape time `mb` under the limit `m`: the plain shade
/// `s`, or `255 - s` under an inverted policy.
pub open spec fn spec_shade(mb: int, m: int, policy: ColorPolicy) -> int {
    let s = spec_plain_shade(mb, m, policy.dynamic());
    if policy.inverted() {
        255 - s
    } else {
        s
    }
}

/// The grey colour whose three channels all hold the shade `s`.
pub open spec fn spec_gray(s: int) -> Rgb {
    Rgb { r: s as u8, g: s as u8, b: s as u8 }
}

/// A shade is a channel value.
pub proof fn lemma_shade_in_range(mb: int, m: int, policy: ColorPolicy)
    requires
        0 <= mb <= m,
        m > 0,
    ensures
        0 <= spec_shade(mb, m, policy) <= 255,
{
    lemma_div_multiples_vanish(255, m);
    lemma_div_multiples_vanish(0, m);
    assert(0 == m * 0 <= mb * 255 <= m * 255) by (nonlinear_arith)
        requires
            0 <= mb <= m,
    ;
    lemma_div_is_ordered(0, mb * 255, m);
    lemma_div_is_ordered(mb * 255, m * 255, m);
}

/// In binary mode a shade is one of exactly two values, black and white.
pub proof fn lemma_binary_shade_is_black_or_white(mb: int, m: int, policy: ColorPolicy)
    requires
        !policy.dynamic(),
    ensures
        spec_shade(mb, m, policy) == 0 || spec_shade(mb, m, policy) == 255,
{
}

/// Inverting a policy replaces every shade `s` by `255 - s`.
pub proof fn lemma_inversion_complements_shade(mb: int, m: int, policy: ColorPolicy)
    ensures
        spec_shade(mb, m, policy.opposite()) == 255 - spec_shade(mb, m, policy),
        spec_shade(mb, m, ColorPolicy::GradientInverted) == 255 - spec_shade(
            mb,
            m,
            ColorPolicy::Gradient,
        ),
{
}

/// The shade for the escape time `mb` of a point under the iteration limit
/// `m`.
pub fn shade(mb: u64, m: u64, policy: ColorPolicy) -> (s: u8)
    requires
        mb <= m,
        m > 0,
    ensures
        s == spec_shade(mb as int, m as int, policy),
{
    proof {
        lemma_shade_in_range(mb as int, m as int, ColorPolicy::Gradient);
    }
    let plain: u8 = if policy.is_dynamic() {
        ((mb as u128 * 255) / (m as u128)) as u8
    } else if mb < m {
        BLACK
    } else {
        WHITE
    };
    if policy.is_inverted() {
        255 - plain
    } else {
        plain
    }
}

/// The colour of a pixel whose point has the escape time `mb` under the
/// iteration limit `m`: grey, with the shade in all three channels.
pub fn pixel_color(mb: u64, m: u64, policy: ColorPolicy) -> (color: Rgb)
    requires
        mb <= m,
        m > 0,
    ensures
        color == spec_gray(spec_shade(mb as int, m as int, policy)),
        color.r == color.g && color.g == color.b,
{
    proof {
        lemma_shade_in_range(mb as int, m as int, policy);
    }
    let s: u8 = shade(mb, m, policy);
    Rgb { r: s, g: s, b: s }
}

} // verus!
