//! Escape-time rendering of the Mandelbrot set on a fixed-point grid.
//!
//! Every number that the renderer computes with is a [`fixed::Fixed`]: an
//! integer count of steps of size 2^-32. All arithmetic is exact integer
//! arithmetic with one stated rounding per product, so each contract below
//! names the value that comes out, bit for bit.

pub mod fixed;
pub mod escape;
pub mod viewport;
pub mod color;
pub mod grid;
pub mod render;
pub mod cli;
