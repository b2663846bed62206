//! What the library takes on trust from the `image` crate: the size of a
//! decoded image and the colour of one of its pixels. Nothing here is
//! proved; the texture code is verified against these statements.

use vstd::prelude::*;
use image::GenericImageView;
use image::Pixel;

verus! {

/// A decoded image of the `image` crate, carried as an opaque value.
#[verifier::external_type_specification]
#[verifier::external_body]
pub struct ExDynamicImage(image::DynamicImage);

/// The number of pixel columns of an image.
pub uninterp spec fn image_width(image: image::DynamicImage) -> nat;

/// The number of pixel rows of an image.
pub uninterp spec fn image_height(image: image::DynamicImage) -> nat;

/// The red, green and blue of each pixel of an image, by column and row.
pub uninterp spec fn image_pixels(image: image::DynamicImage) -> Map<(int, int), (u8, u8, u8)>;

/// `DynamicImage::width` returns the width of the underlying buffer.
pub assume_specification[ image::DynamicImage::width ](image: &image::DynamicImage) -> (w: u32)
    ensures
        w == image_width(*image),
;

/// `DynamicImage::height` returns the height of the underlying buffer.
pub assume_specification[ image::DynamicImage::height ](image: &image::DynamicImage) -> (h: u32)
    ensures
        h == image_height(*image),
;

/// `Clone::clone` of a `DynamicImage`, which the derived `Clone` of a
/// texture calls. Nothing is claimed of the copy.
pub assume_specification[ <image::DynamicImage as Clone>::clone ](
    image: &image::DynamicImage,
) -> (copy: image::DynamicImage)
;

/// `GenericImageView::get_pixel` followed by `Pixel::to_rgb`: the pixel at
/// column `x` and row `y`, counted from the top left, without its alpha
/// channel. The outside call panics outside the image, which `requires`
/// rules out; inside it, the result depends on the image and the place
/// alone.
#[verifier::external_body]
pub(crate) fn pixel_rgb(image: &image::DynamicImage, x: u32, y: u32) -> (rgb: (u8, u8, u8))
    requires
        x < image_width(*image),
        y < image_height(*image),
    ensures
        rgb == image_pixels(*image)[(x as int, y as int)],
{
    let image::Rgb([r, g, b]) = image.get_pixel(x, y).to_rgb();
    (r, g, b)
}

} // verus!
