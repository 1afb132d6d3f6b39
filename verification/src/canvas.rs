//! The RGBA raster being painted for one pattern: a row-major pixel vector
//! with a clipping single-pixel store.

use vstd::prelude::*;
use crate::color::Rgba;

verus! {

/// The pixel every fresh canvas starts out with: transparent black.
pub open spec fn blank_pixel() -> Rgba {
    Rgba { r: 0, g: 0, b: 0, a: 0 }
}

/// A fresh canvas of `w * h` blank pixels.
pub open spec fn spec_blank_canvas(w: int, h: int) -> Seq<Rgba> {
    Seq::new((w * h) as nat, |i: int| blank_pixel())
}

/// The canvas contents after storing `c` at `(x, y)`: unchanged when the
/// coordinate lies outside a `w`-by-`h` canvas, else updated at row-major
/// position `y * w + x`.
pub open spec fn spec_put(d: Seq<Rgba>, w: int, h: int, x: int, y: int, c: Rgba) -> Seq<Rgba> {
    if 0 <= x < w && 0 <= y < h {
        d.update(y * w + x, c)
    } else {
        d
    }
}

/// An in-memory raster: `data` holds `width * height` pixels, row by row.
#[derive(Debug, PartialEq, Eq)]
pub struct Canvas {
    pub width: u32,
    pub height: u32,
    pub data: Vec<Rgba>,
}

impl Canvas {
    /// The canvas holds exactly one pixel per coordinate.
    pub open spec fn wf(self) -> bool {
        self.data@.len() == self.width * self.height
    }

    /// Makes a blank canvas of the given dimensions.
    pub fn new(width: u32, height: u32) -> (c: Canvas)
        requires
            width * height <= usize::MAX,
        ensures
            c.wf(),
            c.width == width,
            c.height == height,
            c.data@ == spec_blank_canvas(width as int, height as int),
    {
        let total: usize = (width as usize) * (height as usize);
        let mut data: Vec<Rgba> = Vec::new();
        for i in 0..total
            invariant
                data@.len() == i,
                forall|j: int| 0 <= j < i ==> data@[j] == blank_pixel(),
        {
            data.push(Rgba { r: 0, g: 0, b: 0, a: 0 });
        }
        let c = Canvas { width, height, data };
        proof {
            assert(c.data@ =~= spec_blank_canvas(width as int, height as int));
        }
        c
    }

    /// Stores one pixel, leaving the canvas unchanged when `(x, y)` lies
    /// outside it.
    pub fn put_pixel(&mut self, x: u64, y: u64, color: Rgba)
        requires
            old(self).wf(),
        ensures
            final(self).wf(),
            final(self).width == old(self).width,
            final(self).height == old(self).height,
            final(self).data@ == spec_put(
                old(self).data@,
                old(self).width as int,
                old(self).height as int,
                x as int,
                y as int,
                color,
            ),
    {
        if x < self.width as u64 && y < self.height as u64 {
            let n = self.data.len();
            proof {
                assert(y * self.width + x < self.width * self.height) by (nonlinear_arith)
                    requires
                        x < self.width,
                        y < self.height,
                        0 <= x,
                        0 <= y,
                ;
                assert(n == self.width * self.height);
            }
            let idx: usize = (y as usize) * (self.width as usize) + (x as usize);
            self.data[idx] = color;
        }
    }
}

} // verus!
