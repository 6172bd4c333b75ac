use mandelbrot::color::{ColorPolicy, Rgb};
use mandelbrot::escape::mandelbrot;
use mandelbrot::fixed::Fixed;
use mandelbrot::render::{
    pixel_point, render, render_pixel, ImageDimensions, IterationParams, RenderConfig, RenderError,
};
use mandelbrot::viewport::Viewport;

fn gray(s: u8) -> Rgb {
    Rgb { r: s, g: s, b: s }
}

fn config(width: u32, height: u32, max_iterations: u64, policy: ColorPolicy) -> RenderConfig {
    RenderConfig {
        dimensions: ImageDimensions { width, height },
        viewport: Viewport::standard(),
        params: IterationParams { max_iterations, radius: Fixed::from_int(5).unwrap() },
        policy,
    }
}

fn shades(config: &RenderConfig) -> Vec<Vec<u8>> {
    let grid = render(config).ok().unwrap();
    let mut rows: Vec<Vec<u8>> = Vec::new();
    for y in 0..config.dimensions.height {
        let mut row: Vec<u8> = Vec::new();
        for x in 0..config.dimensions.width {
            let color = grid.pixel(x, y).unwrap();
            assert_eq!(color.r, color.g);
            assert_eq!(color.g, color.b);
            row.push(color.r);
        }
        rows.push(row);
    }
    rows
}

#[test]
fn three_by_three_binary_image() {
    let grid = render(&config(3, 3, 255, ColorPolicy::Binary)).ok().unwrap();
    // The centre samples -0.5 + 0i, which never escapes.
    assert_eq!(grid.pixel(1, 1), Some(gray(255)));
    // The corners sample points that escape after one step.
    assert_eq!(grid.pixel(0, 0), Some(gray(0)));
    assert_eq!(grid.pixel(2, 0), Some(gray(0)));
    assert_eq!(grid.pixel(0, 2), Some(gray(0)));
    assert_eq!(grid.pixel(2, 2), Some(gray(0)));
    assert_eq!(
        shades(&config(3, 3, 255, ColorPolicy::Binary)),
        vec![vec![0, 0, 0], vec![0, 255, 0], vec![0, 0, 0]]
    );
}

#[test]
fn three_by_three_inverted_binary_image() {
    let grid = render(&config(3, 3, 255, ColorPolicy::BinaryInverted)).ok().unwrap();
    assert_eq!(grid.pixel(1, 1), Some(gray(0)));
    assert_eq!(grid.pixel(0, 0), Some(gray(255)));
    assert_eq!(grid.pixel(2, 2), Some(gray(255)));
    assert_eq!(
        shades(&config(3, 3, 255, ColorPolicy::BinaryInverted)),
        vec![vec![255, 255, 255], vec![255, 0, 255], vec![255, 255, 255]]
    );
}

#[test]
fn three_by_three_gradient_image_holds_the_escape_times() {
    assert_eq!(
        shades(&config(3, 3, 255, ColorPolicy::Gradient)),
        vec![vec![1, 2, 1], vec![3, 255, 2], vec![1, 2, 1]]
    );
    assert_eq!(
        shades(&config(3, 3, 255, ColorPolicy::GradientInverted)),
        vec![vec![254, 253, 254], vec![252, 0, 253], vec![254, 253, 254]]
    );
}

#[test]
fn columns_give_real_parts_and_rows_imaginary_parts() {
    let cfg = config(5, 3, 255, ColorPolicy::Gradient);
    let frame = Viewport::standard();
    let first = pixel_point(&cfg, 0, 0);
    assert_eq!(first.re, frame.x_min);
    assert_eq!(first.im, frame.y_min);
    let last = pixel_point(&cfg, 4, 2);
    assert_eq!(last.re, frame.x_max);
    assert_eq!(last.im, frame.y_max);
    let right = pixel_point(&cfg, 4, 0);
    assert_eq!(right.re, frame.x_max);
    assert_eq!(right.im, frame.y_min);
    let middle = pixel_point(&cfg, 2, 1);
    assert_eq!(middle.re, Fixed { raw: -2147483649 });
    assert_eq!(middle.im, Fixed { raw: 0 });
}

#[test]
fn wide_image_is_not_transposed() {
    // The columns sample the real parts -2.2, -1.35, -0.5, 0.35 and 1.2.
    // On the real axis -1.35 and -0.5 never escape, and the orbit of 0.35
    // passes 5 at its eighth step.
    assert_eq!(
        shades(&config(5, 3, 255, ColorPolicy::Gradient)),
        vec![vec![1, 2, 2, 2, 1], vec![3, 255, 255, 8, 2], vec![1, 2, 2, 2, 1]]
    );
    let grid = render(&config(5, 3, 255, ColorPolicy::Gradient)).ok().unwrap();
    assert_eq!(grid.pixel(4, 2), Some(gray(1)));
    assert_eq!(grid.pixel(5, 0), None);
    assert_eq!(grid.pixel(0, 3), None);
    assert_eq!(grid.pixel(2, 4), None);
}

#[test]
fn tall_image_is_not_transposed() {
    let cfg = config(2, 4, 255, ColorPolicy::Gradient);
    let grid = render(&cfg).ok().unwrap();
    assert_eq!(grid.pixel(1, 3).is_some(), true);
    assert_eq!(grid.pixel(2, 0), None);
    assert_eq!(grid.pixel(0, 4), None);
    assert_eq!(grid.pixel(3, 1), None);
}

#[test]
fn every_pixel_is_the_colour_of_its_point() {
    let policies = [
        ColorPolicy::Binary,
        ColorPolicy::BinaryInverted,
        ColorPolicy::Gradient,
        ColorPolicy::GradientInverted,
    ];
    for policy in policies {
        let cfg = config(9, 7, 40, policy);
        let grid = render(&cfg).ok().unwrap();
        for y in 0..7 {
            for x in 0..9 {
                let c = pixel_point(&cfg, x, y);
                let mb = mandelbrot(c, 40, cfg.params.radius);
                let expected = mandelbrot::color::pixel_color(mb, 40, policy);
                assert_eq!(grid.pixel(x, y), Some(expected));
                assert_eq!(render_pixel(&cfg, x, y), expected);
            }
        }
    }
}

#[test]
fn rendering_twice_gives_the_same_image() {
    let policies = [
        ColorPolicy::Binary,
        ColorPolicy::BinaryInverted,
        ColorPolicy::Gradient,
        ColorPolicy::GradientInverted,
    ];
    for policy in policies {
        let cfg = config(17, 11, 64, policy);
        assert_eq!(shades(&cfg), shades(&cfg));
    }
}

#[test]
fn binary_image_holds_only_black_and_white() {
    for policy in [ColorPolicy::Binary, ColorPolicy::BinaryInverted] {
        let rows = shades(&config(24, 16, 50, policy));
        let mut black: u32 = 0;
        let mut white: u32 = 0;
        for row in rows {
            for s in row {
                assert!(s == 0 || s == 255);
                if s == 0 {
                    black += 1;
                } else {
                    white += 1;
                }
            }
        }
        assert!(black > 0);
        assert!(white > 0);
    }
}

#[test]
fn inverted_image_is_the_complement() {
    let plain = shades(&config(24, 16, 100, ColorPolicy::Gradient));
    let inverted = shades(&config(24, 16, 100, ColorPolicy::GradientInverted));
    for y in 0..16 {
        for x in 0..24 {
            assert_eq!(inverted[y][x], 255 - plain[y][x]);
        }
    }
    let binary = shades(&config(24, 16, 100, ColorPolicy::Binary));
    let swapped = shades(&config(24, 16, 100, ColorPolicy::BinaryInverted));
    for y in 0..16 {
        for x in 0..24 {
            assert_eq!(swapped[y][x], 255 - binary[y][x]);
        }
    }
}

#[test]
fn degenerate_dimensions_are_refused() {
    for (width, height) in [(1, 1), (1, 500), (500, 1), (0, 0), (0, 3), (3, 0)] {
        let cfg = config(width, height, 255, ColorPolicy::Binary);
        assert_eq!(cfg.validate(), Err(RenderError::DegenerateDimensions));
        assert_eq!(render(&cfg).err(), Some(RenderError::DegenerateDimensions));
    }
}

#[test]
fn oversized_image_is_refused() {
    let cfg = config(u32::MAX, u32::MAX, 255, ColorPolicy::Binary);
    assert_eq!(cfg.validate(), Err(RenderError::ImageTooLarge));
    assert_eq!(render(&cfg).err(), Some(RenderError::ImageTooLarge));
}

#[test]
fn viewport_without_area_is_refused() {
    let mut cfg = config(3, 3, 255, ColorPolicy::Binary);
    cfg.viewport.x_max = cfg.viewport.x_min;
    assert_eq!(cfg.validate(), Err(RenderError::InvalidViewport));
    assert_eq!(render(&cfg).err(), Some(RenderError::InvalidViewport));
    let mut flipped = config(3, 3, 255, ColorPolicy::Binary);
    flipped.viewport.y_min = Fixed::from_int(3).unwrap();
    assert_eq!(render(&flipped).err(), Some(RenderError::InvalidViewport));
}

#[test]
fn zero_iterations_are_refused() {
    let cfg = config(3, 3, 0, ColorPolicy::Gradient);
    assert_eq!(cfg.validate(), Err(RenderError::NoIterations));
    assert_eq!(render(&cfg).err(), Some(RenderError::NoIterations));
}

#[test]
fn radius_must_be_positive() {
    let mut cfg = config(3, 3, 255, ColorPolicy::Binary);
    cfg.params.radius = Fixed { raw: 0 };
    assert_eq!(cfg.validate(), Err(RenderError::RadiusOutOfRange));
    assert_eq!(render(&cfg).err(), Some(RenderError::RadiusOutOfRange));
    cfg.params.radius = Fixed { raw: -1 };
    assert_eq!(render(&cfg).err(), Some(RenderError::RadiusOutOfRange));
    cfg.params.radius = Fixed { raw: 1 };
    assert_eq!(cfg.validate(), Ok(()));
}

#[test]
fn first_violation_is_reported() {
    let cfg = RenderConfig {
        dimensions: ImageDimensions { width: 1, height: 1 },
        viewport: Viewport {
            x_min: Fixed { raw: 0 },
            x_max: Fixed { raw: 0 },
            y_min: Fixed { raw: 0 },
            y_max: Fixed { raw: 0 },
        },
        params: IterationParams { max_iterations: 0, radius: Fixed { raw: 0 } },
        policy: ColorPolicy::Binary,
    };
    assert_eq!(cfg.validate(), Err(RenderError::DegenerateDimensions));
    let mut wide = cfg;
    wide.dimensions = ImageDimensions { width: 2, height: 2 };
    assert_eq!(wide.validate(), Err(RenderError::InvalidViewport));
    wide.viewport = Viewport::standard();
    assert_eq!(wide.validate(), Err(RenderError::NoIterations));
    wide.params.max_iterations = 1;
    assert_eq!(wide.validate(), Err(RenderError::RadiusOutOfRange));
}

#[test]
fn smallest_image_has_the_four_corners() {
    let cfg = config(2, 2, 255, ColorPolicy::Gradient);
    assert_eq!(cfg.validate(), Ok(()));
    assert_eq!(shades(&cfg), vec![vec![1, 1], vec![1, 1]]);
}

#[test]
fn grid_is_written_out_row_after_row() {
    let cfg = config(3, 2, 255, ColorPolicy::Gradient);
    let grid = render(&cfg).ok().unwrap();
    let bytes = grid.to_bytes();
    assert_eq!(bytes.len(), 18);
    let mut expected: Vec<u8> = Vec::new();
    for y in 0..2 {
        for x in 0..3 {
            let color = grid.pixel(x, y).unwrap();
            expected.push(color.r);
            expected.push(color.g);
            expected.push(color.b);
        }
    }
    assert_eq!(bytes, expected);
    // The rows sample the imaginary parts -2 and 2, the columns the real
    // parts -2.2, -0.5 and 1.2.
    assert_eq!(bytes, vec![1, 1, 1, 2, 2, 2, 1, 1, 1, 1, 1, 1, 2, 2, 2, 1, 1, 1]);
}

#[test]
fn bytes_of_a_wide_image_keep_their_rows_apart() {
    let cfg = config(5, 3, 255, ColorPolicy::GradientInverted);
    let grid = render(&cfg).ok().unwrap();
    let bytes = grid.to_bytes();
    assert_eq!(bytes.len(), 45);
    // Row 1 holds the real axis: its pixels start at byte 15.
    assert_eq!(&bytes[15..30], &[252, 252, 252, 0, 0, 0, 0, 0, 0, 247, 247, 247, 253, 253, 253]);
    assert_eq!(&bytes[0..15], &bytes[30..45]);
}
