//! The output buffer: one packed colour for each pixel, row by row.

use vstd::prelude::*;
use crate::grid::{cell_index, lemma_cell_distinct, lemma_cell_in_bounds};

verus! {

/// A `width` by `height` grid of packed colours.
pub struct Framebuffer {
    pub width: usize,
    pub height: usize,
    pub buffer: Vec<u32>,
}

impl Framebuffer {
    /// The buffer has one entry for each pixel.
    pub open spec fn wf(&self) -> bool {
        self.buffer.len() == self.width * self.height
    }

    /// The packed colour at column `x` and row `y`.
    pub open spec fn pixel(&self, x: int, y: int) -> u32 {
        self.buffer@[cell_index(self.width as int, x, y)]
    }

    /// A black framebuffer of the given size.
    pub fn new(width: usize, height: usize) -> (fb: Framebuffer)
        requires
            width * height <= usize::MAX,
        ensures
            fb.width == width,
            fb.height == height,
            fb.wf(),
            forall|i: int| 0 <= i < fb.buffer@.len() ==> fb.buffer@[i] == 0,
    {
        Framebuffer { width, height, buffer: vec![0u32; width * height] }
    }

    /// Sets every pixel to black.
    pub fn clear(&mut self)
        ensures
            final(self).width == old(self).width,
            final(self).height == old(self).height,
            final(self).buffer@.len() == old(self).buffer@.len(),
            old(self).wf() ==> final(self).wf(),
            forall|i: int| 0 <= i < final(self).buffer@.len() ==> final(self).buffer@[i] == 0,
    {
        let mut i: usize = 0;
        while i < self.buffer.len()
            invariant
                i <= self.buffer.len(),
                self.width == old(self).width,
                self.height == old(self).height,
                self.buffer@.len() == old(self).buffer@.len(),
                forall|j: int| 0 <= j < i ==> self.buffer@[j] == 0,
            decreases self.buffer.len() - i,
        {
            self.buffer.set(i, 0);
            i += 1;
        }
    }

    /// Writes `color` at column `x` and row `y`. A place outside the
    /// framebuffer is ignored.
    pub fn set_pixel(&mut self, x: usize, y: usize, color: u32)
        requires
            old(self).wf(),
        ensures
            final(self).width == old(self).width,
            final(self).height == old(self).height,
            final(self).wf(),
            x < old(self).width && y < old(self).height ==> final(self).buffer@
                == old(self).buffer@.update(
                cell_index(old(self).width as int, x as int, y as int),
                color,
            ),
            !(x < old(self).width && y < old(self).height) ==> final(self).buffer@
                == old(self).buffer@,
            forall|x2: int, y2: int|
                0 <= x2 < old(self).width && 0 <= y2 < old(self).height
                    ==> #[trigger] final(self).pixel(x2, y2) == (if x2 == x && y2 == y {
                    color
                } else {
                    old(self).pixel(x2, y2)
                }),
    {
        if x < self.width && y < self.height {
            proof {
                lemma_cell_in_bounds(self.width as int, self.height as int, x as int, y as int);
            }
            self.buffer.set(y * self.width + x, color);
            assert forall|x2: int, y2: int|
                0 <= x2 < self.width && 0 <= y2 < self.height implies #[trigger] self.pixel(x2, y2)
                == (if x2 == x && y2 == y {
                color
            } else {
                old(self).pixel(x2, y2)
            }) by {
                lemma_cell_in_bounds(self.width as int, self.height as int, x2, y2);
                if cell_index(self.width as int, x2, y2) == cell_index(
                    self.width as int,
                    x as int,
                    y as int,
                ) {
                    lemma_cell_distinct(self.width as int, x2, y2, x as int, y as int);
                }
            }
        }
    }

    /// Marks a point. It draws nothing: pixels are written by `set_pixel`.
    pub fn point(&mut self, x: usize, y: usize)
        ensures
            *final(self) == *old(self),
    {
    }
}

} // verus!
