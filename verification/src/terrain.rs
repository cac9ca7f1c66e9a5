//! The terrain image: a rectangle of presence (alpha) values.
//!
//! Only the presence channel of a terrain texture matters for collision
//! detection, so a terrain image is modelled as a row-major array of one
//! presence byte per pixel.  A nonzero presence value (above the configured
//! threshold) marks solid, collidable terrain.

use vstd::prelude::*;

verus! {

/// A terrain image: `width * height` presence bytes in row-major order.
///
/// The pixel at column `x` and row `y` is stored at index `y * width + x`.
pub struct TerrainImage {
    /// Width of the image in pixels.
    pub width: usize,
    /// Height of the image in pixels.
    pub height: usize,
    /// Presence (alpha) byte for each pixel, row-major.
    pub alpha: Vec<u8>,
}

impl TerrainImage {
    /// The image is well-formed: the presence array covers every pixel.
    pub open spec fn wf(self) -> bool {
        self.alpha@.len() == self.width * self.height
    }

    /// The presence byte at pixel `(x, y)`.
    pub open spec fn presence(self, x: int, y: int) -> u8
        recommends
            self.wf(),
            0 <= x < self.width,
            0 <= y < self.height,
    {
        self.alpha@[y * self.width + x]
    }

    /// Whether `(x, y)` lies inside the image bounds.
    pub open spec fn in_bounds(self, x: int, y: int) -> bool {
        0 <= x < self.width && 0 <= y < self.height
    }

    /// The two images have identical dimensions and presence contents.
    pub open spec fn same_pixels(self, other: TerrainImage) -> bool {
        self.width == other.width && self.height == other.height && self.alpha@ == other.alpha@
    }

    /// A fully transparent image, as used to seed the render targets before
    /// any level geometry is drawn.
    pub fn new_blank(width: usize, height: usize) -> (img: TerrainImage)
        requires
            width * height <= usize::MAX,
        ensures
            img.wf(),
            img.width == width,
            img.height == height,
            forall|x: int, y: int| img.in_bounds(x, y) ==> img.presence(x, y) == 0u8,
    {
        let total: usize = width * height;
        let mut alpha: Vec<u8> = Vec::new();
        let mut i: usize = 0;
        while i < total
            invariant
                i <= total,
                alpha@.len() == i,
                forall|j: int| 0 <= j < i ==> alpha@[j] == 0u8,
            decreases total - i,
        {
            alpha.push(0u8);
            i = i + 1;
        }
        let img = TerrainImage { width, height, alpha };
        proof {
            assert forall|x: int, y: int| img.in_bounds(x, y) implies img.presence(x, y)
                == 0u8 by {
                lemma_row_major_index(width as int, height as int, x, y);
            }
        }
        img
    }

    /// Read the presence byte at pixel `(x, y)`.
    pub fn presence_at(&self, x: usize, y: usize) -> (p: u8)
        requires
            self.wf(),
            x < self.width,
            y < self.height,
        ensures
            p == self.presence(x as int, y as int),
    {
        let _len: usize = self.alpha.len();
        proof {
            lemma_row_major_index(
                self.width as int,
                self.height as int,
                x as int,
                y as int,
            );
        }
        let idx: usize = y * self.width + x;
        self.alpha[idx]
    }

    /// Overwrite the presence byte at pixel `(x, y)`; every other pixel keeps
    /// its value.
    pub fn set_presence(&mut self, x: usize, y: usize, value: u8)
        requires
            old(self).wf(),
            x < old(self).width,
            y < old(self).height,
        ensures
            final(self).wf(),
            final(self).width == old(self).width,
            final(self).height == old(self).height,
            final(self).presence(x as int, y as int) == value,
            forall|i: int, j: int|
                old(self).in_bounds(i, j) && !(i == x && j == y) ==> final(self).presence(i, j)
                    == old(self).presence(i, j),
    {
        let _len: usize = self.alpha.len();
        proof {
            lemma_row_major_index(
                self.width as int,
                self.height as int,
                x as int,
                y as int,
            );
        }
        let idx: usize = y * self.width + x;
        self.alpha[idx] = value;
        proof {
            assert forall|i: int, j: int|
                old(self).in_bounds(i, j) && !(i == x && j == y) implies final(self).presence(i, j)
                == old(self).presence(i, j) by {
                lemma_row_major_index(self.width as int, self.height as int, i, j);
                lemma_row_major_distinct(self.width as int, i, j, x as int, y as int);
            }
        }
    }

    /// Clone the image, pixel for pixel.
    pub fn clone_image(&self) -> (img: TerrainImage)
        ensures
            img.same_pixels(*self),
    {
        let mut alpha: Vec<u8> = Vec::new();
        let mut i: usize = 0;
        while i < self.alpha.len()
            invariant
                i <= self.alpha@.len(),
                alpha@.len() == i,
                forall|j: int| 0 <= j < i ==> alpha@[j] == self.alpha@[j],
            decreases self.alpha@.len() - i,
        {
            alpha.push(self.alpha[i]);
            i = i + 1;
        }
        proof {
            assert(alpha@ =~= self.alpha@);
        }
        TerrainImage { width: self.width, height: self.height, alpha }
    }
}

/// A row-major index is in range: `y * w + x < w * h` whenever `x < w` and
/// `y < h`, and it is nonnegative.
pub proof fn lemma_row_major_index(w: int, h: int, x: int, y: int)
    requires
        0 <= x < w,
        0 <= y < h,
    ensures
        0 <= y * w + x < w * h,
{
    assert(y * w + x < w * h) by (nonlinear_arith)
        requires
            0 <= x < w,
            0 <= y < h,
    ;
    assert(0 <= y * w) by (nonlinear_arith)
        requires
            0 <= y,
            0 < w,
    ;
}

/// Distinct pixels have distinct row-major indices.
pub proof fn lemma_row_major_distinct(w: int, x1: int, y1: int, x2: int, y2: int)
    requires
        0 <= x1 < w,
        0 <= x2 < w,
        0 <= y1,
        0 <= y2,
        !(x1 == x2 && y1 == y2),
    ensures
        y1 * w + x1 != y2 * w + x2,
{
    if y1 == y2 {
        assert(y1 * w + x1 != y2 * w + x2);
    } else {
        assert(y1 * w + x1 != y2 * w + x2) by (nonlinear_arith)
            requires
                0 <= x1 < w,
                0 <= x2 < w,
                y1 != y2,
        ;
    }
}

} // verus!
