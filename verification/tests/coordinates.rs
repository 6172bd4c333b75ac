use mandelbrot::fixed::Fixed;
use mandelbrot::viewport::{map_coordinate, Viewport};

fn fx(raw: i64) -> Fixed {
    Fixed { raw }
}

#[test]
fn first_pixel_maps_to_the_lower_bound() {
    assert_eq!(map_coordinate(0, 2, fx(-7), fx(9)), fx(-7));
    assert_eq!(map_coordinate(0, 500, fx(-9448928052), fx(5153960755)), fx(-9448928052));
    assert_eq!(map_coordinate(0, u32::MAX, fx(i64::MIN), fx(i64::MAX)), fx(i64::MIN));
}

#[test]
fn last_pixel_maps_to_the_upper_bound() {
    assert_eq!(map_coordinate(1, 2, fx(-7), fx(9)), fx(9));
    assert_eq!(map_coordinate(499, 500, fx(-9448928052), fx(5153960755)), fx(5153960755));
    assert_eq!(map_coordinate(u32::MAX - 1, u32::MAX, fx(i64::MIN), fx(i64::MAX)), fx(i64::MAX));
}

#[test]
fn middle_pixel_maps_to_the_midpoint() {
    assert_eq!(map_coordinate(1, 3, fx(-10), fx(10)), fx(0));
    assert_eq!(map_coordinate(1, 3, fx(-8589934592), fx(8589934592)), fx(0));
    assert_eq!(map_coordinate(2, 5, fx(0), fx(4294967296)), fx(2147483648));
}

#[test]
fn mapped_coordinate_is_rounded_down() {
    // lo + floor(i * (hi - lo) / (n - 1))
    assert_eq!(map_coordinate(1, 4, fx(-10), fx(10)), fx(-4));
    assert_eq!(map_coordinate(2, 4, fx(-10), fx(10)), fx(3));
    assert_eq!(map_coordinate(1, 4, fx(0), fx(10)), fx(3));
    assert_eq!(map_coordinate(1, 3, fx(-9448928052), fx(5153960755)), fx(-2147483649));
}

#[test]
fn every_pixel_maps_into_the_bounds() {
    let lo = fx(-9448928052);
    let hi = fx(5153960755);
    let n: u32 = 257;
    let mut previous: i64 = lo.raw;
    let mut i: u32 = 0;
    while i < n {
        let coord = map_coordinate(i, n, lo, hi);
        assert!(lo.raw <= coord.raw && coord.raw <= hi.raw);
        assert!(previous <= coord.raw);
        previous = coord.raw;
        i += 1;
    }
    assert_eq!(previous, hi.raw);
}

#[test]
fn descending_bounds_map_from_the_first_to_the_second() {
    assert_eq!(map_coordinate(0, 3, fx(10), fx(-10)), fx(10));
    assert_eq!(map_coordinate(1, 3, fx(10), fx(-10)), fx(0));
    assert_eq!(map_coordinate(2, 3, fx(10), fx(-10)), fx(-10));
    assert_eq!(map_coordinate(1, 4, fx(10), fx(-10)), fx(3));
}

#[test]
fn equal_bounds_map_every_pixel_to_them() {
    assert_eq!(map_coordinate(0, 9, fx(42), fx(42)), fx(42));
    assert_eq!(map_coordinate(4, 9, fx(42), fx(42)), fx(42));
    assert_eq!(map_coordinate(8, 9, fx(42), fx(42)), fx(42));
}

#[test]
fn standard_viewport_frames_the_set() {
    let frame = Viewport::standard();
    assert_eq!(Some(frame.x_min), Fixed::from_ratio(-22, 10));
    assert_eq!(Some(frame.x_max), Fixed::from_ratio(12, 10));
    assert_eq!(Some(frame.y_min), Fixed::from_int(-2));
    assert_eq!(Some(frame.y_max), Fixed::from_int(2));
    assert!(frame.is_valid());
}

#[test]
fn viewport_needs_sides_of_positive_length() {
    let good = Viewport { x_min: fx(0), x_max: fx(1), y_min: fx(-1), y_max: fx(0) };
    assert!(good.is_valid());
    let flat = Viewport { x_min: fx(0), x_max: fx(0), y_min: fx(-1), y_max: fx(0) };
    assert!(!flat.is_valid());
    let narrow = Viewport { x_min: fx(0), x_max: fx(1), y_min: fx(3), y_max: fx(3) };
    assert!(!narrow.is_valid());
    let reversed = Viewport { x_min: fx(2), x_max: fx(1), y_min: fx(-1), y_max: fx(0) };
    assert!(!reversed.is_valid());
}
