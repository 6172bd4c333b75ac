//! Rendering: one pass over the pixels of an image, each pixel mapped to a
//! point of the plane, the point to its escape time, the escape time to a
//! colour.

use crate::color::{
    lemma_binary_shade_is_black_or_white, lemma_inversion_complements_shade, lemma_shade_in_range,
    pixel_color, spec_gray, spec_shade, ColorPolicy, Rgb,
};
use crate::escape::{lemma_escape_time_is_first, mandelbrot, spec_escape_time, Complex};
use crate::fixed::Fixed;
use crate::grid::{grid_height, grid_pixels, grid_width, PixelGrid};
use crate::viewport::{
    lemma_map_coordinate_range, map_coordinate, spec_map_coordinate, Viewport,
};
use vstd::prelude::*;

verus! {

/// The size of an image in pixels.
#[derive(Clone, Copy, Debug, PartialEq, Eq, Structural)]
pub struct ImageDimensions {
    pub width: u32,
    pub height: u32,
}

impl ImageDimensions {
    /// Each axis has the two pixels that the mapping of coordinates needs.
    pub open spec fn valid(&self) -> bool {
        self.width >= 2 && self.height >= 2
    }

    /// A buffer of three bytes for each pixel can be allocated: the length
    /// of a row and the length of the whole are within what a vector holds.
    pub open spec fn fits(&self) -> bool {
        3 * self.width <= usize::MAX && 3 * self.width * self.height <= isize::MAX
    }
}

/// Where the whole buffer of an image with at least one row fits, a row
/// fits.
pub proof fn lemma_row_is_within_image(width: int, height: int)
    by (nonlinear_arith)
    requires
        width >= 0,
        height >= 1,
    ensures
        3 * width <= 3 * width * height,
{
}

/// The iteration limit and the escape radius.
#[derive(Clone, Copy, Debug, PartialEq, Eq, Structural)]
pub struct IterationParams {
    pub max_iterations: u64,
    pub radius: Fixed,
}

/// Everything that a render depends on.
#[derive(Clone, Copy, Debug, PartialEq, Eq, Structural)]
pub struct RenderConfig {
    pub dimensions: ImageDimensions,
    pub viewport: Viewport,
    pub params: IterationParams,
    pub policy: ColorPolicy,
}

/// Why a configuration cannot be rendered.
#[derive(Clone, Copy, Debug, PartialEq, Eq, Structural)]
pub enum RenderError {
    /// The width or the height is less than two pixels.
    DegenerateDimensions,
    /// The image is larger than a buffer can be.
    ImageTooLarge,
    /// A lower bound of the viewport is not below its upper bound.
    InvalidViewport,
    /// The iteration limit is zero.
    NoIterations,
    /// The escape radius is not a positive number of the grid.
    RadiusOutOfRange,
}

impl RenderConfig {
    /// The first reason, in the order of the variants of [`RenderError`], for
    /// which the configuration cannot be rendered, if there is one.
    pub open spec fn violation(&self) -> Option<RenderError> {
        if !self.dimensions.valid() {
            Some(RenderError::DegenerateDimensions)
        } else if !self.dimensions.fits() {
            Some(RenderError::ImageTooLarge)
        } else if !self.viewport.valid() {
            Some(RenderError::InvalidViewport)
        } else if self.params.max_iterations == 0 {
            Some(RenderError::NoIterations)
        } else if self.params.radius@ <= 0 {
            Some(RenderError::RadiusOutOfRange)
        } else {
            None
        }
    }

    /// The configuration can be rendered.
    pub open spec fn valid(&self) -> bool {
        &&& self.dimensions.valid()
        &&& self.dimensions.fits()
        &&& self.viewport.valid()
        &&& self.params.max_iterations > 0
        &&& self.params.radius@ > 0
    }

    /// The same configuration under another colour policy.
    pub open spec fn with_policy(&self, policy: ColorPolicy) -> RenderConfig {
        RenderConfig {
            dimensions: self.dimensions,
            viewport: self.viewport,
            params: self.params,
            policy,
        }
    }

    /// Validates the configuration: `Ok` if it can be rendered, and
    /// otherwise the first reason for which it cannot.
    pub fn validate(&self) -> (outcome: Result<(), RenderError>)
        ensures
            outcome is Ok <==> self.valid(),
            outcome matches Err(e) ==> self.violation() == Some(e),
    {
        let width: u32 = self.dimensions.width;
        let height: u32 = self.dimensions.height;
        if width < 2 || height < 2 {
            return Err(RenderError::DegenerateDimensions);
        }
        assert(3 * width * height <= 3 * 0xffff_ffff * 0xffff_ffff) by (nonlinear_arith)
            requires
                0 <= width <= 0xffff_ffff,
                0 <= height <= 0xffff_ffff,
        ;
        proof {
            lemma_row_is_within_image(width as int, height as int);
        }
        let bytes: u128 = 3 * (width as u128) * (height as u128);
        if bytes > isize::MAX as u128 {
            return Err(RenderError::ImageTooLarge);
        }
        if !self.viewport.is_valid() {
            return Err(RenderError::InvalidViewport);
        }
        if self.params.max_iterations == 0 {
            return Err(RenderError::NoIterations);
        }
        if self.params.radius.raw <= 0 {
            return Err(RenderError::RadiusOutOfRange);
        }
        Ok(())
    }
}

/// The point of the plane that the pixel at column `x` of row `y` samples:
/// the column gives the real part and the row the imaginary part.
pub open spec fn spec_point(config: RenderConfig, x: int, y: int) -> (int, int) {
    (
        spec_map_coordinate(
            x,
            config.dimensions.width as int,
            config.viewport.x_min@,
            config.viewport.x_max@,
        ),
        spec_map_coordinate(
            y,
            config.dimensions.height as int,
            config.viewport.y_min@,
            config.viewport.y_max@,
        ),
    )
}

/// The escape time of the point that the pixel at column `x` of row `y`
/// samples.
pub open spec fn spec_pixel_escape_time(config: RenderConfig, x: int, y: int) -> nat {
    spec_escape_time(
        spec_point(config, x, y),
        config.params.max_iterations as nat,
        config.params.radius@,
    )
}

/// The shade of the pixel at column `x` of row `y`.
pub open spec fn spec_pixel_shade(config: RenderConfig, x: int, y: int) -> int {
    spec_shade(
        spec_pixel_escape_time(config, x, y) as int,
        config.params.max_iterations as int,
        config.policy,
    )
}

/// The colour of the pixel at column `x` of row `y`: grey, of its shade.
pub open spec fn spec_pixel(config: RenderConfig, x: int, y: int) -> Rgb {
    spec_gray(spec_pixel_shade(config, x, y))
}

/// The image of a configuration after the rows above `row` and the first
/// `column` pixels of that row have been painted; the rest is still black.
spec fn spec_partial_image(config: RenderConfig, column: int, row: int) -> Map<
    (int, int),
    Rgb,
> {
    Map::new(
        |p: (int, int)| 0 <= p.0 < config.dimensions.width && 0 <= p.1 < config.dimensions.height,
        |p: (int, int)|
            if p.1 < row || (p.1 == row && p.0 < column) {
                spec_pixel(config, p.0, p.1)
            } else {
                Rgb { r: 0, g: 0, b: 0 }
            },
    )
}

/// The image of a configuration: the colour of each of its pixels.
pub open spec fn spec_image(config: RenderConfig) -> Map<(int, int), Rgb> {
    Map::new(
        |p: (int, int)| 0 <= p.0 < config.dimensions.width && 0 <= p.1 < config.dimensions.height,
        |p: (int, int)| spec_pixel(config, p.0, p.1),
    )
}

/// `grid` is the finished image of `config`.
pub open spec fn is_rendering(config: RenderConfig, grid: PixelGrid) -> bool {
    &&& grid_width(grid) == config.dimensions.width
    &&& grid_height(grid) == config.dimensions.height
    &&& grid_pixels(grid) == spec_image(config)
}

/// The point of the plane that the pixel at column `x` of row `y` samples.
pub fn pixel_point(config: &RenderConfig, x: u32, y: u32) -> (c: Complex)
    requires
        config.valid(),
        x < config.dimensions.width,
        y < config.dimensions.height,
    ensures
        c@ == spec_point(*config, x as int, y as int),
        config.viewport.x_min@ <= c.re@ <= config.viewport.x_max@,
        config.viewport.y_min@ <= c.im@ <= config.viewport.y_max@,
{
    let re: Fixed = map_coordinate(
        x,
        config.dimensions.width,
        config.viewport.x_min,
        config.viewport.x_max,
    );
    let im: Fixed = map_coordinate(
        y,
        config.dimensions.height,
        config.viewport.y_min,
        config.viewport.y_max,
    );
    Complex { re, im }
}

/// The colour of the pixel at column `x` of row `y`.
pub fn render_pixel(config: &RenderConfig, x: u32, y: u32) -> (color: Rgb)
    requires
        config.valid(),
        x < config.dimensions.width,
        y < config.dimensions.height,
    ensures
        color == spec_pixel(*config, x as int, y as int),
{
    let c: Complex = pixel_point(config, x, y);
    let mb: u64 = mandelbrot(c, config.params.max_iterations, config.params.radius);
    pixel_color(mb, config.params.max_iterations, config.policy)
}

/// Renders the image of a configuration.
///
/// A configuration that cannot be rendered is refused with the first reason
/// that [`RenderConfig::violation`] finds. Otherwise the grid that comes
/// back has the configured size and holds, at every position, the colour of
/// that pixel.
pub fn render(config: &RenderConfig) -> (rendered: Result<PixelGrid, RenderError>)
    ensures
        rendered is Ok <==> config.valid(),
        rendered matches Ok(grid) ==> is_rendering(*config, grid),
        rendered matches Err(e) ==> config.violation() == Some(e),
{
    match config.validate() {
        Err(e) => {
            return Err(e);
        },
        Ok(_) => {},
    }
    let width: u32 = config.dimensions.width;
    let height: u32 = config.dimensions.height;
    let mut grid: PixelGrid = PixelGrid::blank(width, height);
    assert(grid_pixels(grid) =~= spec_partial_image(*config, 0, 0));
    let mut y: u32 = 0;
    while y < height
        invariant
            config.valid(),
            width == config.dimensions.width,
            height == config.dimensions.height,
            y <= height,
            grid_width(grid) == width,
            grid_height(grid) == height,
            grid_pixels(grid) == spec_partial_image(*config, 0, y as int),
        decreases height - y,
    {
        let mut x: u32 = 0;
        while x < width
            invariant
                config.valid(),
                width == config.dimensions.width,
                height == config.dimensions.height,
                y < height,
                x <= width,
                grid_width(grid) == width,
                grid_height(grid) == height,
                grid_pixels(grid) == spec_partial_image(*config, x as int, y as int),
            decreases width - x,
        {
            let color: Rgb = render_pixel(config, x, y);
            grid.put(x, y, color);
            assert(grid_pixels(grid) =~= spec_partial_image(*config, x + 1, y as int));
            x = x + 1;
        }
        assert(spec_partial_image(*config, width as int, y as int) =~= spec_partial_image(
            *config,
            0,
            y + 1,
        ));
        y = y + 1;
    }
    assert(spec_partial_image(*config, 0, height as int) =~= spec_image(*config));
    Ok(grid)
}

/// Every pixel samples a point of the viewport, and the corner pixels sample
/// its corners exactly.
pub proof fn lemma_points_lie_in_viewport(config: RenderConfig, x: int, y: int)
    requires
        config.valid(),
        0 <= x < config.dimensions.width,
        0 <= y < config.dimensions.height,
    ensures
        config.viewport.x_min@ <= spec_point(config, x, y).0 <= config.viewport.x_max@,
        config.viewport.y_min@ <= spec_point(config, x, y).1 <= config.viewport.y_max@,
        spec_point(config, 0, 0) == (config.viewport.x_min@, config.viewport.y_min@),
        spec_point(config, config.dimensions.width - 1, config.dimensions.height - 1) == (
            config.viewport.x_max@,
            config.viewport.y_max@,
        ),
{
    lemma_map_coordinate_range(
        x,
        config.dimensions.width as int,
        config.viewport.x_min@,
        config.viewport.x_max@,
    );
    lemma_map_coordinate_range(
        y,
        config.dimensions.height as int,
        config.viewport.y_min@,
        config.viewport.y_max@,
    );
}

/// The shade of every pixel is a channel value.
pub proof fn lemma_pixel_shade_in_range(config: RenderConfig, x: int, y: int)
    requires
        config.params.max_iterations > 0,
    ensures
        0 <= spec_pixel_shade(config, x, y) <= 255,
        spec_pixel(config, x, y) == spec_gray(spec_pixel_shade(config, x, y)),
{
    lemma_escape_time_is_first(
        spec_point(config, x, y),
        config.params.max_iterations as nat,
        config.params.radius@,
    );
    lemma_shade_in_range(
        spec_pixel_escape_time(config, x, y) as int,
        config.params.max_iterations as int,
        config.policy,
    );
}

/// Under a binary policy every channel of every pixel of the image is 0 or
/// 255.
pub proof fn lemma_binary_image_is_black_and_white(config: RenderConfig, x: int, y: int)
    requires
        !config.policy.dynamic(),
    ensures
        spec_pixel(config, x, y) == (Rgb { r: 0, g: 0, b: 0 }) || spec_pixel(config, x, y) == (Rgb {
            r: 255,
            g: 255,
            b: 255,
        }),
{
    lemma_binary_shade_is_black_or_white(
        spec_pixel_escape_time(config, x, y) as int,
        config.params.max_iterations as int,
        config.policy,
    );
}

/// Inverting the policy, with everything else the same, replaces every
/// channel `s` of every pixel of the image by `255 - s`.
pub proof fn lemma_inverted_image_is_complement(config: RenderConfig, x: int, y: int)
    requires
        config.params.max_iterations > 0,
    ensures
        spec_pixel(config.with_policy(config.policy.opposite()), x, y).r == 255 - spec_pixel(
            config,
            x,
            y,
        ).r,
        spec_pixel(config.with_policy(config.policy.opposite()), x, y).g == 255 - spec_pixel(
            config,
            x,
            y,
        ).g,
        spec_pixel(config.with_policy(config.policy.opposite()), x, y).b == 255 - spec_pixel(
            config,
            x,
            y,
        ).b,
{
    lemma_pixel_shade_in_range(config, x, y);
    lemma_pixel_shade_in_range(config.with_policy(config.policy.opposite()), x, y);
    lemma_inversion_complements_shade(
        spec_pixel_escape_time(config, x, y) as int,
        config.params.max_iterations as int,
        config.policy,
    );
}

/// Two renderings of one configuration hold the same pixels: the image is a
/// function of the configuration alone.
pub proof fn lemma_render_is_deterministic(config: RenderConfig, first: PixelGrid, second: PixelGrid)
    requires
        is_rendering(config, first),
        is_rendering(config, second),
    ensures
        grid_width(first) == grid_width(second),
        grid_height(first) == grid_height(second),
        grid_pixels(first) == grid_pixels(second),
{
}

} // verus!
