//! The fixed comparison grid that every source image is reduced to before
//! hashing: 9 columns by 8 rows of single-channel intensities.

use vstd::prelude::*;

verus! {

/// Number of columns of the comparison grid.
pub const WIDTH: usize = 9;

/// Number of rows of the comparison grid.
pub const HEIGHT: usize = 8;

/// Total number of grid cells.
pub const GRID_PIXELS: usize = WIDTH * HEIGHT;

/// A grayscale image of exactly `WIDTH` x `HEIGHT` pixels, stored row by
/// row from the top, left to right within a row. Its view is that sequence
/// of 72 intensities.
pub struct NormalizedImage {
    pixels: Vec<u8>,
}

impl View for NormalizedImage {
    type V = Seq<u8>;

    closed spec fn view(&self) -> Seq<u8> {
        self.pixels@
    }
}

impl NormalizedImage {
    /// The grid always holds exactly `WIDTH * HEIGHT` intensities.
    pub open spec fn wf(&self) -> bool {
        self@.len() == 72
    }

    /// Build a grid from 72 intensities in row-major order; any other
    /// number of intensities is rejected.
    pub fn from_pixels(pixels: Vec<u8>) -> (r: Option<NormalizedImage>)
        ensures
            pixels@.len() == 72 ==> (r matches Some(img) && img@ == pixels@ && img.wf()),
            pixels@.len() != 72 ==> r is None,
    {
        if pixels.len() == GRID_PIXELS {
            Some(NormalizedImage { pixels })
        } else {
            None
        }
    }

    /// The intensity of the pixel in column `x` of row `y`.
    pub fn pixel(&self, x: usize, y: usize) -> (r: u8)
        requires
            self.wf(),
            x < WIDTH,
            y < HEIGHT,
        ensures
            r == self@[y * 9 + x],
    {
        self.pixels[y * WIDTH + x]
    }
}

} // verus!
