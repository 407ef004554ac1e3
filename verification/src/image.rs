//! The hand-over to the presentation surface: a display buffer as an image of
//! the toolkit that draws it.

use crate::buffer::rgb_bytes;
use crate::buffer::DisplayBuffer;
use crate::color::expanded;
use crate::color::PackedColor;
use crate::frame::LCD_HEIGHT;
use crate::frame::LCD_WIDTH;
use crate::frame::PIXEL_COUNT;
use egui::ColorImage;
use vstd::prelude::*;

verus! {

/// The toolkit's image in memory, `egui::ColorImage`. Its fields are not read
/// here: what an image holds is spoken of through `image_size` and
/// `image_pixels`.
#[verifier::external_type_specification]
#[verifier::external_body]
pub struct ExColorImage(egui::ColorImage);

/// Width and height of an image, in pixels: its field `size`.
pub uninterp spec fn image_size(image: ColorImage) -> (int, int);

/// The pixels of an image, row by row from the top, each as its red, green,
/// blue and alpha bytes: its field `pixels`.
pub uninterp spec fn image_pixels(image: ColorImage) -> Seq<(u8, u8, u8, u8)>;

/// Truecolour bytes as opaque pixels: each run of three bytes is the red,
/// green and blue of one pixel, whose alpha is 255.
pub open spec fn opaque_pixels(rgb: Seq<u8>) -> Seq<(u8, u8, u8, u8)> {
    Seq::new(rgb.len() / 3, |i: int| (rgb[3 * i], rgb[3 * i + 1], rgb[3 * i + 2], 255u8))
}

/// Calls `egui::ColorImage::from_rgb`. That function panics unless the bytes
/// are three for each pixel of the size given, which `requires` asks for. The
/// contract claims, without proof, what its source shows: the image has the
/// size given, and pixel `i` is made of bytes `3 * i` to `3 * i + 2` with full
/// alpha.
#[verifier::external_body]
fn image_from_rgb(width: usize, height: usize, rgb: &[u8]) -> (image: ColorImage)
    requires
        width * height * 3 == rgb@.len(),
    ensures
        image_size(image) == (width as int, height as int),
        image_pixels(image) == opaque_pixels(rgb@),
{
    ColorImage::from_rgb([width, height], rgb)
}

/// The image that the presentation surface is given for a buffer: as wide and
/// as high as the LCD, opaque, and pixel for pixel the buffer's colours.
pub fn to_image(buffer: &DisplayBuffer) -> (image: ColorImage)
    ensures
        image_size(image) == (LCD_WIDTH as int, LCD_HEIGHT as int),
        image_pixels(image) == opaque_pixels(buffer@),
        image_pixels(image).len() == PIXEL_COUNT,
{
    let bytes = buffer.as_slice();
    image_from_rgb(LCD_WIDTH, LCD_HEIGHT, bytes)
}

/// What is shown for a frame: pixel `i` of the image carries the three
/// widened channels of pixel `i` of the frame, and is opaque.
pub proof fn image_shows_frame(pixels: Seq<PackedColor>, i: int)
    requires
        0 <= i < pixels.len(),
    ensures
        opaque_pixels(rgb_bytes(pixels)).len() == pixels.len(),
        opaque_pixels(rgb_bytes(pixels))[i] == (
            expanded(pixels[i].red_value()) as u8,
            expanded(pixels[i].green_value()) as u8,
            expanded(pixels[i].blue_value()) as u8,
            255u8,
        ),
{
}

} // verus!
