use vstd::prelude::*;

verus! {

/// One pixel: an RGB triple of 8-bit channels.
#[derive(Clone, Copy, PartialEq, Eq, Structural, Debug)]
pub struct Rgb8 {
    pub r: u8,
    pub g: u8,
    pub b: u8,
}

/// Pure black, one of the two colours every transformed pixel takes.
pub open spec fn black_pixel() -> Rgb8 {
    Rgb8 { r: 0, g: 0, b: 0 }
}

/// Pure white, the other colour a transformed pixel can take.
pub open spec fn white_pixel() -> Rgb8 {
    Rgb8 { r: 255, g: 255, b: 255 }
}

/// A raster image: `width * height` pixels stored in row-major order
/// (all of row `y` before row `y + 1`; within a row, column `x` before
/// `x + 1`).
pub struct Image {
    pub width: u32,
    pub height: u32,
    pub pixels: Vec<Rgb8>,
}

impl Image {
    /// The pixel vector holds exactly one entry per grid cell.
    pub open spec fn wf(self) -> bool {
        self.pixels@.len() == self.width as int * self.height as int
    }

    /// The pixel at column `x` of row `y`, under row-major storage.
    pub open spec fn pixel_at(self, x: int, y: int) -> Rgb8 {
        self.pixels@[y * self.width as int + x]
    }

    /// Builds an image from its dimensions and a row-major pixel vector;
    /// refuses a vector whose length does not match the grid.
    pub fn new(width: u32, height: u32, pixels: Vec<Rgb8>) -> (r: Option<Image>)
        ensures
            match r {
                Some(img) => {
                    &&& img.wf()
                    &&& img.width == width
                    &&& img.height == height
                    &&& img.pixels@ == pixels@
                },
                None => pixels@.len() != width as int * height as int,
            },
    {
        proof {
            assert((width as int) * (height as int) <= 0xFFFF_FFFFu64 as int * 0xFFFF_FFFFu64 as int)
                by (nonlinear_arith)
                requires
                    0 <= width as int <= 0xFFFF_FFFFu64 as int,
                    0 <= height as int <= 0xFFFF_FFFFu64 as int,
            ;
        }
        let cells: u64 = (width as u64) * (height as u64);
        if pixels.len() as u64 == cells {
            Some(Image { width, height, pixels })
        } else {
            None
        }
    }
}

} // verus!
