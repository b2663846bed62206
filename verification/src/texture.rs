//! Textures: the pixels of a decoded image as a row-major array of colours,
//! addressed with a fallback outside the image.

use vstd::prelude::*;
use image::DynamicImage;
use crate::color::Color;
use crate::grid::{cell_index, lemma_cell_distinct, lemma_cell_in_bounds};
use crate::pixels::{image_height, image_pixels, image_width, pixel_rgb};

verus! {

/// A decoded image together with its pixels as colours.
#[derive(Debug, Clone, PartialEq)]
pub struct Texture {
    pub image: DynamicImage,
    pub width: usize,
    pub height: usize,
    pub color_array: Vec<Color>,
}

/// The colour of a red, green, blue triple.
pub open spec fn rgb_color(rgb: (u8, u8, u8)) -> Color {
    Color { r: rgb.0, g: rgb.1, b: rgb.2 }
}

/// The colour returned for a place outside a texture.
pub open spec fn magenta() -> Color {
    Color { r: 255, g: 0, b: 255 }
}

impl Texture {
    /// The array has one colour for each place of the grid.
    pub open spec fn wf(&self) -> bool {
        self.color_array.len() == self.width * self.height
    }

    /// The grid has the size of the image.
    pub open spec fn fits_image(&self) -> bool {
        &&& self.width == image_width(self.image)
        &&& self.height == image_height(self.image)
        &&& self.width <= u32::MAX
        &&& self.height <= u32::MAX
    }

    /// The array holds the colour of each pixel of the image, row by row.
    pub open spec fn holds_image(&self) -> bool {
        forall|x: int, y: int|
            0 <= x < self.width && 0 <= y < self.height ==> self.color_array@[cell_index(
                self.width as int,
                x,
                y,
            )] == rgb_color(#[trigger] image_pixels(self.image)[(x, y)])
    }

    /// Every column before `columns`, and the first `rows` rows of column
    /// `columns`, hold the colours of the image's pixels.
    spec fn loaded_up_to(&self, columns: int, rows: int) -> bool {
        forall|x: int, y: int|
            0 <= y < self.height && (0 <= x < columns || (x == columns && y < rows))
                ==> self.color_array@[cell_index(self.width as int, x, y)] == rgb_color(
                #[trigger] image_pixels(self.image)[(x, y)],
            )
    }

    /// What a lookup at column `x` and row `y` gives.
    pub open spec fn color_at(&self, x: int, y: int) -> Color {
        if 0 <= x < self.width && 0 <= y < self.height {
            self.color_array@[cell_index(self.width as int, x, y)]
        } else {
            magenta()
        }
    }

    /// What a normal lookup at column `x` and row `y` gives: the three
    /// components of a vector as numerators over 255. A stored channel `c`
    /// stands for `c / 255 * 2 - 1`, which is `(2 * c - 255) / 255`; outside
    /// the texture the vector is the unit vector along the third axis.
    pub open spec fn normal_at(&self, x: int, y: int) -> (int, int, int) {
        if 0 <= x < self.width && 0 <= y < self.height {
            let c = self.color_array@[cell_index(self.width as int, x, y)];
            (2 * c.r - 255, 2 * c.g - 255, 2 * c.b - 255)
        } else {
            (0, 0, 255)
        }
    }

    /// Makes the texture of a decoded image.
    ///
    /// `None` only when the pixel count does not fit the machine's `usize`.
    pub fn new(image: DynamicImage) -> (made: Option<Texture>)
        ensures
            made is None <==> image_width(image) * image_height(image) > usize::MAX,
            made matches Some(t) ==> t.image == image && t.wf() && t.fits_image()
                && t.holds_image(),
    {
        let width: usize = image.width() as usize;
        let height: usize = image.height() as usize;
        match width.checked_mul(height) {
            None => None,
            Some(count) => {
                let mut texture = Texture {
                    image,
                    width,
                    height,
                    color_array: vec![Color::black(); count],
                };
                texture.load_color_array();
                Some(texture)
            },
        }
    }

    /// Fills the array from the image, pixel by pixel.
    fn load_color_array(&mut self)
        requires
            old(self).wf(),
            old(self).fits_image(),
        ensures
            final(self).image == old(self).image,
            final(self).width == old(self).width,
            final(self).height == old(self).height,
            final(self).wf(),
            final(self).holds_image(),
    {
        let mut x: usize = 0;
        while x < self.width
            invariant
                x <= self.width,
                self.image == old(self).image,
                self.width == old(self).width,
                self.height == old(self).height,
                self.wf(),
                self.fits_image(),
                self.loaded_up_to(x as int, 0),
            decreases self.width - x,
        {
            let mut y: usize = 0;
            while y < self.height
                invariant
                    x < self.width,
                    y <= self.height,
                    self.image == old(self).image,
                    self.width == old(self).width,
                    self.height == old(self).height,
                    self.wf(),
                    self.fits_image(),
                    self.loaded_up_to(x as int, y as int),
                decreases self.height - y,
            {
                let (r, g, b) = pixel_rgb(&self.image, x as u32, y as u32);
                proof {
                    lemma_cell_in_bounds(self.width as int, self.height as int, x as int, y as int);
                }
                self.color_array.set(y * self.width + x, Color::new(r, g, b));
                assert forall|x2: int, y2: int|
                    0 <= y2 < self.height && (0 <= x2 < x || (x2 == x && y2 < y + 1))
                    implies self.color_array@[cell_index(self.width as int, x2, y2)] == rgb_color(
                    #[trigger] image_pixels(self.image)[(x2, y2)],
                ) by {
                    lemma_cell_in_bounds(self.width as int, self.height as int, x2, y2);
                    if cell_index(self.width as int, x2, y2) == cell_index(
                        self.width as int,
                        x as int,
                        y as int,
                    ) {
                        lemma_cell_distinct(self.width as int, x2, y2, x as int, y as int);
                    }
                }
                y += 1;
            }
            x += 1;
        }
    }

    /// The colour at column `x` and row `y`; magenta outside the texture.
    pub fn get_color(&self, x: usize, y: usize) -> (c: Color)
        requires
            self.wf(),
        ensures
            c == self.color_at(x as int, y as int),
    {
        if x >= self.width || y >= self.height {
            Color::new(255, 0, 255)
        } else {
            proof {
                lemma_cell_in_bounds(self.width as int, self.height as int, x as int, y as int);
            }
            self.color_array[y * self.width + x]
        }
    }

    /// The normal stored at column `x` and row `y`, each component as a
    /// numerator over 255, so that every component lies in `[-1, 1]`. A
    /// channel of 0 gives -255, one of 255 gives 255. Outside the texture
    /// the result is `(0, 0, 255)`, the unit vector along the third axis.
    pub fn get_normal(&self, x: usize, y: usize) -> (n: (i16, i16, i16))
        requires
            self.wf(),
        ensures
            (n.0 as int, n.1 as int, n.2 as int) == self.normal_at(x as int, y as int),
            -255 <= n.0 <= 255,
            -255 <= n.1 <= 255,
            -255 <= n.2 <= 255,
    {
        if x >= self.width || y >= self.height {
            (0, 0, 255)
        } else {
            proof {
                lemma_cell_in_bounds(self.width as int, self.height as int, x as int, y as int);
            }
            let color = self.color_array[y * self.width + x];
            (
                2 * (color.r as i16) - 255,
                2 * (color.g as i16) - 255,
                2 * (color.b as i16) - 255,
            )
        }
    }
}

} // verus!
