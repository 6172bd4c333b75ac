//! The pixel grid that a render fills, kept in an `image::RgbImage`.

use crate::color::Rgb;
use vstd::arithmetic::div_mod::lemma_fundamental_div_mod_converse;
use vstd::prelude::*;

verus! {

/// A rectangular buffer of colours, one for each pixel of an image.
///
/// The buffer is an `image::RgbImage`. Proofs know its contents only
/// through [`grid_width`], [`grid_height`] and [`grid_pixels`], and through
/// what the methods below state of them.
#[verifier::external_body]
pub struct PixelGrid {
    image: image::RgbImage,
}

/// The number of columns of a grid: what `ImageBuffer::width` returns.
pub uninterp spec fn grid_width(grid: PixelGrid) -> nat;

/// The number of rows of a grid: what `ImageBuffer::height` returns.
pub uninterp spec fn grid_height(grid: PixelGrid) -> nat;

/// The colours that a grid holds, by `(column, row)`.
pub uninterp spec fn grid_pixels(grid: PixelGrid) -> Map<(int, int), Rgb>;

/// The byte at index `i` of a grid written out row after row, with three
/// bytes for each pixel: red, green, blue.
pub open spec fn spec_byte(grid: PixelGrid, i: int) -> u8 {
    let width = grid_width(grid) as int;
    let color = grid_pixels(grid)[((i / 3) % width, (i / 3) / width)];
    if i % 3 == 0 {
        color.r
    } else if i % 3 == 1 {
        color.g
    } else {
        color.b
    }
}

/// A grid written out row after row, with three bytes for each pixel.
pub open spec fn spec_bytes(grid: PixelGrid) -> Seq<u8> {
    Seq::new((3 * (grid_height(grid) * grid_width(grid))) as nat, |i: int| spec_byte(grid, i))
}

impl PixelGrid {
    /// Calls `image::ImageBuffer::new`, which allocates a zeroed buffer of
    /// three bytes for each pixel.
    ///
    /// Trusted: the new image has the dimensions asked for, and every pixel
    /// of it is `(0, 0, 0)`. The call multiplies three by the width and the
    /// product by the height, and panics when either product is more than a
    /// `usize` holds or the buffer would be larger than a vector can be. The
    /// precondition rules out all three, on a machine of any word size.
    #[verifier::external_body]
    pub(crate) fn blank(width: u32, height: u32) -> (grid: PixelGrid)
        requires
            3 * width <= usize::MAX,
            3 * width * height <= isize::MAX,
        ensures
            grid_width(grid) == width,
            grid_height(grid) == height,
            grid_pixels(grid) == Map::new(
                |p: (int, int)| 0 <= p.0 < width && 0 <= p.1 < height,
                |p: (int, int)| (Rgb { r: 0, g: 0, b: 0 }),
            ),
    {
        PixelGrid { image: image::RgbImage::new(width, height) }
    }

    /// Calls `image::ImageBuffer::put_pixel`.
    ///
    /// Trusted: the pixel at `(x, y)` becomes `color`, and nothing else
    /// changes. The call panics for a position outside the image, which the
    /// precondition rules out.
    #[verifier::external_body]
    pub(crate) fn put(&mut self, x: u32, y: u32, color: Rgb)
        requires
            x < grid_width(*old(self)),
            y < grid_height(*old(self)),
        ensures
            grid_width(*final(self)) == grid_width(*old(self)),
            grid_height(*final(self)) == grid_height(*old(self)),
            grid_pixels(*final(self)) == grid_pixels(*old(self)).insert((x as int, y as int), color),
    {
        self.image.put_pixel(x, y, image::Rgb([color.r, color.g, color.b]));
    }

    /// Calls `image::ImageBuffer::get_pixel`.
    ///
    /// Trusted: the result is the colour held at `(x, y)`. The call panics
    /// for a position outside the image, which the precondition rules out.
    #[verifier::external_body]
    fn get(&self, x: u32, y: u32) -> (color: Rgb)
        requires
            x < grid_width(*self),
            y < grid_height(*self),
        ensures
            color == grid_pixels(*self)[(x as int, y as int)],
    {
        let pixel = self.image.get_pixel(x, y);
        Rgb { r: pixel.0[0], g: pixel.0[1], b: pixel.0[2] }
    }

    /// Calls `image::ImageBuffer::width`.
    ///
    /// Trusted: the result is the image's number of columns.
    #[verifier::external_body]
    fn columns(&self) -> (width: u32)
        ensures
            width == grid_width(*self),
    {
        self.image.width()
    }

    /// Calls `image::ImageBuffer::height`.
    ///
    /// Trusted: the result is the image's number of rows.
    #[verifier::external_body]
    fn rows(&self) -> (height: u32)
        ensures
            height == grid_height(*self),
    {
        self.image.height()
    }

    /// The grid written out row after row from the top, each row from the
    /// left, with three bytes for each pixel: red, green, blue.
    pub fn to_bytes(&self) -> (bytes: Vec<u8>)
        ensures
            bytes@ == spec_bytes(*self),
    {
        let width: u32 = self.columns();
        let height: u32 = self.rows();
        let mut bytes: Vec<u8> = Vec::new();
        let ghost mut done: int = 0;
        let mut y: u32 = 0;
        while y < height
            invariant
                width == grid_width(*self),
                height == grid_height(*self),
                y <= height,
                done == y * width,
                bytes@.len() == 3 * done,
                forall|i: int| 0 <= i < bytes@.len() ==> bytes@[i] == spec_byte(*self, i),
            decreases height - y,
        {
            let mut x: u32 = 0;
            while x < width
                invariant
                    width == grid_width(*self),
                    height == grid_height(*self),
                    y < height,
                    x <= width,
                    done == y * width + x,
                    bytes@.len() == 3 * done,
                    forall|i: int| 0 <= i < bytes@.len() ==> bytes@[i] == spec_byte(*self, i),
                decreases width - x,
            {
                let color: Rgb = self.get(x, y);
                proof {
                    lemma_fundamental_div_mod_converse(done, width as int, y as int, x as int);
                }
                bytes.push(color.r);
                bytes.push(color.g);
                bytes.push(color.b);
                x = x + 1;
                proof {
                    done = done + 1;
                }
            }
            assert(y * width + width == (y + 1) * width) by (nonlinear_arith);
            y = y + 1;
        }
        assert(bytes@ =~= spec_bytes(*self));
        bytes
    }

    /// The colour at column `x` of row `y`, or `None` for a position outside
    /// the grid.
    pub fn pixel(&self, x: u32, y: u32) -> (color: Option<Rgb>)
        ensures
            color is Some <==> x < grid_width(*self) && y < grid_height(*self),
            color matches Some(c) ==> c == grid_pixels(*self)[(x as int, y as int)],
    {
        if x < self.columns() && y < self.rows() {
            Some(self.get(x, y))
        } else {
            None
        }
    }
}

} // verus!
