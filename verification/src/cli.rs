//! Rules of the command-line front end: which file formats it writes, how
//! it reads the answer to a yes-or-no question, when it warns of a large
//! image, and which configuration its arguments ask for.

use crate::color::ColorPolicy;
use crate::fixed::{Fixed, SCALE};
use crate::render::{
    lemma_row_is_within_image, ImageDimensions, IterationParams, RenderConfig, RenderError,
};
use crate::viewport::Viewport;
use vstd::prelude::*;

verus! {

/// The answer to a yes-or-no question.
#[derive(Clone, Copy, Debug, PartialEq, Eq, Structural)]
pub enum Answer {
    Yes,
    No,
    /// Neither of the two.
    Unclear,
}

/// An image with a side longer than this many pixels earns a warning.
pub const LARGE_SIDE: i64 = 4000;

/// What `str::to_uppercase` returns for a text.
pub uninterp spec fn spec_uppercase(text: Seq<char>) -> Seq<char>;

/// What `str::trim` returns for a text.
pub uninterp spec fn spec_trimmed(text: Seq<char>) -> Seq<char>;

/// Calls `str::to_uppercase`, which maps each character to its uppercase
/// form by the tables of Unicode.
///
/// Trusted: the result depends on the text alone. Nothing else is claimed
/// of it here.
#[verifier::external_body]
fn uppercase(text: &str) -> (upper: String)
    ensures
        upper@ == spec_uppercase(text@),
{
    text.to_uppercase()
}

/// Calls `str::trim`, which removes leading and trailing white space as
/// Unicode defines it.
///
/// Trusted: the result depends on the text alone. Nothing else is claimed
/// of it here.
#[verifier::external_body]
fn trimmed(text: &str) -> (inner: &str)
    ensures
        inner@ == spec_trimmed(text@),
{
    text.trim()
}

/// Whether two texts hold the same characters.
fn same_text(a: &str, b: &str) -> (same: bool)
    ensures
        same == (a@ == b@),
{
    let left: String = a.to_owned();
    let right: String = b.to_owned();
    left == right
}

/// Whether `upper` names, in capitals, a file format that images are
/// written in.
pub open spec fn spec_format_allowed(upper: Seq<char>) -> bool {
    ||| upper == "PNG"@
    ||| upper == "JPG"@
    ||| upper == "JPEG"@
    ||| upper == "TIFF"@
    ||| upper == "WEBP"@
    ||| upper == "GIF"@
}

/// The answer that a text in capitals gives.
pub open spec fn spec_answer(upper: Seq<char>) -> Answer {
    if upper == "N"@ || upper == "NO"@ {
        Answer::No
    } else if upper == "Y"@ || upper == "YES"@ {
        Answer::Yes
    } else {
        Answer::Unclear
    }
}

/// Whether `upper` is one of `PNG`, `JPG`, `JPEG`, `TIFF`, `WEBP` and `GIF`.
pub fn format_allowed(upper: &str) -> (allowed: bool)
    ensures
        allowed == spec_format_allowed(upper@),
{
    same_text(upper, "PNG") || same_text(upper, "JPG") || same_text(upper, "JPEG") || same_text(
        upper,
        "TIFF",
    ) || same_text(upper, "WEBP") || same_text(upper, "GIF")
}

/// Whether a file with the extension `extension` can be written: whether
/// the extension, in capitals, names an allowed format.
pub fn extension_allowed(extension: &str) -> (allowed: bool)
    ensures
        allowed == spec_format_allowed(spec_uppercase(extension@)),
{
    let upper: String = uppercase(extension);
    format_allowed(upper.as_str())
}

/// The answer that a text in capitals gives: `N` and `NO` refuse, `Y` and
/// `YES` agree, and anything else is unclear.
pub fn classify_answer(upper: &str) -> (answer: Answer)
    ensures
        answer == spec_answer(upper@),
{
    if same_text(upper, "N") || same_text(upper, "NO") {
        Answer::No
    } else if same_text(upper, "Y") || same_text(upper, "YES") {
        Answer::Yes
    } else {
        Answer::Unclear
    }
}

/// The answer that a line of input gives, whatever its case and the white
/// space around it.
pub fn read_answer(line: &str) -> (answer: Answer)
    ensures
        answer == spec_answer(spec_uppercase(spec_trimmed(line@))),
{
    let inner: &str = trimmed(line);
    let upper: String = uppercase(inner);
    classify_answer(upper.as_str())
}

/// Whether an image of this size earns the warning for large images.
pub fn is_very_large(width: i64, height: i64) -> (large: bool)
    ensures
        large == (width > LARGE_SIDE || height > LARGE_SIDE),
{
    width > LARGE_SIDE || height > LARGE_SIDE
}

/// Why the arguments ask for no configuration that can be rendered, if they
/// do not: the first reason in the order of the variants of
/// [`RenderError`].
pub open spec fn spec_argument_error(width: int, height: int, iterations: int, limit: int) -> Option<
    RenderError,
> {
    if width < 2 || height < 2 {
        Some(RenderError::DegenerateDimensions)
    } else if width > u32::MAX || height > u32::MAX || 3 * width * height > isize::MAX {
        Some(RenderError::ImageTooLarge)
    } else if iterations <= 0 {
        Some(RenderError::NoIterations)
    } else if limit <= 0 || limit >= 2147483648 {
        Some(RenderError::RadiusOutOfRange)
    } else {
        None
    }
}

/// The configuration that the arguments ask for: an image of `width` by
/// `height` pixels of the customary frame, with at most `iterations`
/// iterations for each point and the escape radius `limit`.
pub open spec fn spec_configuration(
    width: int,
    height: int,
    iterations: int,
    limit: int,
    dynamic: bool,
    inverted: bool,
) -> RenderConfig {
    RenderConfig {
        dimensions: ImageDimensions { width: width as u32, height: height as u32 },
        viewport: Viewport::spec_standard(),
        params: IterationParams {
            max_iterations: iterations as u64,
            radius: Fixed { raw: (limit * SCALE) as i64 },
        },
        policy: ColorPolicy::spec_new(dynamic, inverted),
    }
}

/// The configuration that the arguments of the command line ask for, or the
/// first reason for which it cannot be rendered.
///
/// The escape radius is a number of the fixed-point grid, which ends below
/// 2147483648: a limit of that size or more is refused like one that is not
/// positive.
pub fn configuration(
    width: i64,
    height: i64,
    iterations: i64,
    limit: i64,
    dynamic: bool,
    inverted: bool,
) -> (made: Result<RenderConfig, RenderError>)
    ensures
        made is Ok <==> spec_argument_error(
            width as int,
            height as int,
            iterations as int,
            limit as int,
        ) is None,
        made matches Ok(config) ==> config.valid() && config == spec_configuration(
            width as int,
            height as int,
            iterations as int,
            limit as int,
            dynamic,
            inverted,
        ),
        made matches Err(e) ==> spec_argument_error(
            width as int,
            height as int,
            iterations as int,
            limit as int,
        ) == Some(e),
{
    if width < 2 || height < 2 {
        return Err(RenderError::DegenerateDimensions);
    }
    if width > u32::MAX as i64 || height > u32::MAX as i64 {
        return Err(RenderError::ImageTooLarge);
    }
    let dimensions = ImageDimensions { width: width as u32, height: height as u32 };
    let radius: Fixed = match Fixed::from_int(limit) {
        Some(radius) => radius,
        None => Fixed { raw: 0 },
    };
    let config = RenderConfig {
        dimensions,
        viewport: Viewport::standard(),
        params: IterationParams {
            max_iterations: if iterations > 0 {
                iterations as u64
            } else {
                0
            },
            radius,
        },
        policy: ColorPolicy::new(dynamic, inverted),
    };
    proof {
        lemma_row_is_within_image(width as int, height as int);
    }
    match config.validate() {
        Ok(_) => Ok(config),
        Err(e) => Err(e),
    }
}

} // verus!
