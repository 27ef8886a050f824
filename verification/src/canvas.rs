//! A rectangular pixel buffer of colors.

use vstd::prelude::*;

verus! {

use crate::color::{Color, spec_black};

/// A width x height grid of colors, row-major.
#[derive(Clone, Debug)]
pub struct Canvas {
    pub width: usize,
    pub height: usize,
    pub pixels: Vec<Color>,
}

impl Canvas {
    pub open spec fn wf(self) -> bool {
        self.pixels@.len() == self.width * self.height
    }

    /// The pixel at `(x, y)`.
    pub open spec fn pixel(self, x: int, y: int) -> Color {
        self.pixels@[y * self.width + x]
    }

    /// A canvas of the given size, all black.
    pub fn new(width: usize, height: usize) -> (c: Canvas)
        requires
            width * height <= usize::MAX,
        ensures
            c.wf(),
            c.width == width,
            c.height == height,
            forall|i: int| 0 <= i < c.pixels@.len() ==> c.pixels@[i] == spec_black(),
    {
        let n = width * height;
        let mut pixels: Vec<Color> = Vec::new();
        let mut i: usize = 0;
        while i < n
            invariant
                i <= n,
                pixels@.len() == i,
                forall|j: int| 0 <= j < i ==> pixels@[j] == spec_black(),
            decreases n - i,
        {
            pixels.push(Color::black());
            i = i + 1;
        }
        Canvas { width, height, pixels }
    }

    /// Read the pixel at `(x, y)`.
    pub fn get_pixel(&self, x: usize, y: usize) -> (c: Color)
        requires
            self.wf(),
            x < self.width,
            y < self.height,
        ensures
            c == self.pixel(x as int, y as int),
    {
        let n: usize = self.pixels.len();
        proof {
            lemma_grid_index_in_range(
                self.width as int,
                self.height as int,
                x as int,
                y as int,
            );
            assert(self.pixels@.len() == n as int);
        }
        self.pixels[y * self.width + x]
    }

    /// Write the pixel at `(x, y)`.
    pub fn write_pixel(&mut self, x: usize, y: usize, c: Color)
        requires
            old(self).wf(),
            x < old(self).width,
            y < old(self).height,
        ensures
            final(self).wf(),
            final(self).width == old(self).width,
            final(self).height == old(self).height,
            final(self).pixels@ == old(self).pixels@.update(
                y * old(self).width + x,
                c,
            ),
            final(self).pixel(x as int, y as int) == c,
            forall|xx: int, yy: int|
                0 <= xx < old(self).width && 0 <= yy < old(self).height && !(xx == x as int && yy
                    == y as int) ==> final(self).pixel(xx, yy) == old(self).pixel(xx, yy),
    {
        let n: usize = self.pixels.len();
        proof {
            lemma_grid_index_in_range(
                self.width as int,
                self.height as int,
                x as int,
                y as int,
            );
            assert(self.pixels@.len() == n as int);
        }
        let i = y * self.width + x;
        let ghost orig = *self;
        self.pixels.set(i, c);
        proof {
            assert forall|xx: int, yy: int|
                0 <= xx < orig.width && 0 <= yy < orig.height && !(xx == x as int && yy
                    == y as int) implies self.pixel(xx, yy) == orig.pixel(xx, yy) by {
                lemma_grid_index_in_range(orig.width as int, orig.height as int, xx, yy);
                if yy * orig.width + xx == (y as int) * orig.width + (x as int) {
                    lemma_grid_index_injective(orig.width as int, xx, yy, x as int, y as int);
                }
            }
        }
    }
}

/// A cell's flat index lies inside the grid.
pub proof fn lemma_grid_index_in_range(w: int, h: int, x: int, y: int)
    requires
        0 <= x < w,
        0 <= y < h,
    ensures
        0 <= y * w + x < w * h,
{
    assert(y * w + x < w * h) by (nonlinear_arith)
        requires
            0 <= x < w,
            0 <= y < h,
    ;
    assert(y * w >= 0) by (nonlinear_arith)
        requires
            y >= 0,
            w > 0,
    ;
}

/// Distinct cells have distinct flat indices.
pub proof fn lemma_grid_index_injective(w: int, x1: int, y1: int, x2: int, y2: int)
    requires
        0 <= x1 < w,
        0 <= x2 < w,
        0 <= y1,
        0 <= y2,
        y1 * w + x1 == y2 * w + x2,
    ensures
        x1 == x2 && y1 == y2,
{
    assert(y1 == y2 && x1 == x2) by (nonlinear_arith)
        requires
            0 <= x1 < w,
            0 <= x2 < w,
            0 <= y1,
            0 <= y2,
            y1 * w + x1 == y2 * w + x2,
    ;
}

/// Build a canvas of the given size.
pub fn canvas(width: usize, height: usize) -> (c: Canvas)
    requires
        width * height <= usize::MAX,
    ensures
        c.wf(),
        c.width == width,
        c.height == height,
        forall|i: int| 0 <= i < c.pixels@.len() ==> c.pixels@[i] == spec_black(),
{
    Canvas::new(width, height)
}

} // verus!
