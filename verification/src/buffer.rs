//! The display buffer: a frame re-encoded as truecolour bytes.

use crate::color::expanded;
use crate::color::PackedColor;
use crate::frame::pixel_index;
use crate::frame::uniform_pixels;
use crate::frame::Frame;
use crate::frame::LCD_HEIGHT;
use crate::frame::LCD_WIDTH;
use crate::frame::PIXEL_COUNT;
use vstd::prelude::*;

verus! {

/// Bytes that encode one pixel: red, green, blue.
pub const BYTES_PER_PIXEL: usize = 3;

/// Bytes in one display buffer.
pub const DISPLAY_BUFFER_LEN: usize = BYTES_PER_PIXEL * PIXEL_COUNT;

/// Byte `j` of the truecolour encoding of `pixels`: pixel `j / 3` supplies it,
/// from its red, green or blue channel as `j % 3` is 0, 1 or 2.
pub open spec fn rgb_byte(pixels: Seq<PackedColor>, j: int) -> u8 {
    expanded(pixels[j / 3].channel_value(j % 3)) as u8
}

/// The truecolour encoding of a run of pixels: three bytes for each pixel, in
/// the order of the pixels.
pub open spec fn rgb_bytes(pixels: Seq<PackedColor>) -> Seq<u8> {
    Seq::new(3 * pixels.len(), |j: int| rgb_byte(pixels, j))
}

/// The truecolour image of one frame: `DISPLAY_BUFFER_LEN` bytes, three for
/// each pixel, row by row from the top. A buffer is made by converting a frame
/// and never changes afterwards.
#[derive(Debug)]
pub struct DisplayBuffer {
    bytes: Vec<u8>,
}

impl View for DisplayBuffer {
    type V = Seq<u8>;

    /// The bytes in order.
    closed spec fn view(&self) -> Seq<u8> {
        self.bytes@
    }
}

impl DisplayBuffer {
    #[verifier::type_invariant]
    spec fn sized(self) -> bool {
        self.bytes@.len() == DISPLAY_BUFFER_LEN
    }

    /// Re-encodes a frame: each pixel becomes three consecutive bytes, its
    /// red, green and blue channels widened to eight bits.
    pub fn convert(frame: &Frame) -> (buffer: DisplayBuffer)
        ensures
            buffer@ == rgb_bytes(frame@),
            buffer@.len() == DISPLAY_BUFFER_LEN,
    {
        let n: usize = frame.len();
        let mut bytes: Vec<u8> = Vec::with_capacity(DISPLAY_BUFFER_LEN);
        let mut i: usize = 0;
        while i < n
            invariant
                n == PIXEL_COUNT,
                frame@.len() == PIXEL_COUNT,
                i <= n,
                bytes@.len() == 3 * i,
                forall|j: int| 0 <= j < 3 * i ==> bytes@[j] == rgb_byte(frame@, j),
            decreases n - i,
        {
            let (red, green, blue) = frame.get(i).to_rgb();
            bytes.push(red);
            bytes.push(green);
            bytes.push(blue);
            i += 1;
        }
        assert(bytes@ =~= rgb_bytes(frame@));
        DisplayBuffer { bytes }
    }

    /// The number of bytes, which is the same for every buffer.
    pub fn len(&self) -> (n: usize)
        ensures
            n == DISPLAY_BUFFER_LEN,
            self@.len() == DISPLAY_BUFFER_LEN,
    {
        proof {
            use_type_invariant(self);
        }
        self.bytes.len()
    }

    /// Byte `j` of the buffer.
    pub fn byte(&self, j: usize) -> (b: u8)
        requires
            j < DISPLAY_BUFFER_LEN,
        ensures
            self@.len() == DISPLAY_BUFFER_LEN,
            b == self@[j as int],
    {
        proof {
            use_type_invariant(self);
        }
        self.bytes[j]
    }

    /// The red, green and blue bytes of the pixel in column `x` of row `y`.
    pub fn rgb_at(&self, x: usize, y: usize) -> (rgb: (u8, u8, u8))
        requires
            x < LCD_WIDTH,
            y < LCD_HEIGHT,
        ensures
            self@.len() == DISPLAY_BUFFER_LEN,
            rgb.0 == self@[3 * pixel_index(x as int, y as int)],
            rgb.1 == self@[3 * pixel_index(x as int, y as int) + 1],
            rgb.2 == self@[3 * pixel_index(x as int, y as int) + 2],
    {
        proof {
            use_type_invariant(self);
        }
        let base: usize = 3 * (y * LCD_WIDTH + x);
        (self.bytes[base], self.bytes[base + 1], self.bytes[base + 2])
    }

    /// The bytes, borrowed.
    pub fn as_slice(&self) -> (bytes: &[u8])
        ensures
            bytes@ == self@,
            bytes@.len() == DISPLAY_BUFFER_LEN,
    {
        proof {
            use_type_invariant(self);
        }
        self.bytes.as_slice()
    }

    /// The bytes, handed over.
    pub fn into_bytes(self) -> (bytes: Vec<u8>)
        ensures
            bytes@ == self@,
            bytes@.len() == DISPLAY_BUFFER_LEN,
    {
        proof {
            use_type_invariant(&self);
        }
        self.bytes
    }
}

/// The encoding holds three bytes for each pixel, and the three bytes of pixel
/// `i` are its red, green and blue channels, each widened.
pub proof fn encoding_is_pixelwise(pixels: Seq<PackedColor>, i: int)
    requires
        0 <= i < pixels.len(),
    ensures
        rgb_bytes(pixels).len() == 3 * pixels.len(),
        rgb_bytes(pixels)[3 * i] == expanded(pixels[i].red_value()),
        rgb_bytes(pixels)[3 * i + 1] == expanded(pixels[i].green_value()),
        rgb_bytes(pixels)[3 * i + 2] == expanded(pixels[i].blue_value()),
{
    channels_fit(pixels[i]);
}

/// Every channel of every colour is a five-bit value, and its expansion is a
/// byte.
pub proof fn channels_fit(color: PackedColor)
    ensures
        forall|k: int| 0 <= #[trigger] color.channel_value(k) <= 31,
        forall|k: int| 0 <= #[trigger] expanded(color.channel_value(k)) <= 255,
{
}

/// A frame of one colour converts to a buffer of full length that repeats the
/// three expanded channels of that colour.
pub proof fn uniform_frame_converts_uniformly(color: PackedColor)
    ensures
        DISPLAY_BUFFER_LEN == 3 * LCD_WIDTH * LCD_HEIGHT,
        rgb_bytes(uniform_pixels(color)).len() == DISPLAY_BUFFER_LEN,
        forall|j: int|
            0 <= j < DISPLAY_BUFFER_LEN ==> #[trigger] rgb_bytes(uniform_pixels(color))[j]
                == expanded(color.channel_value(j % 3)),
{
    channels_fit(color);
}

/// A frame of black pixels converts to a buffer of zero bytes.
pub proof fn black_frame_converts_to_zeros(color: PackedColor)
    requires
        color.red_value() == 0,
        color.green_value() == 0,
        color.blue_value() == 0,
    ensures
        DISPLAY_BUFFER_LEN == 3 * LCD_WIDTH * LCD_HEIGHT,
        rgb_bytes(uniform_pixels(color)) == Seq::new(DISPLAY_BUFFER_LEN as nat, |j: int| 0u8),
{
    uniform_frame_converts_uniformly(color);
    assert(rgb_bytes(uniform_pixels(color)) =~= Seq::new(DISPLAY_BUFFER_LEN as nat, |j: int| 0u8));
}

/// A frame whose pixels all have every channel at its maximum converts to a
/// buffer in which every byte is 255.
pub proof fn brightest_frame_converts_to_full_bytes(color: PackedColor)
    requires
        color.red_value() == 31,
        color.green_value() == 31,
        color.blue_value() == 31,
    ensures
        rgb_bytes(uniform_pixels(color)) == Seq::new(DISPLAY_BUFFER_LEN as nat, |j: int| 255u8),
{
    uniform_frame_converts_uniformly(color);
    assert(rgb_bytes(uniform_pixels(color)) =~= Seq::new(
        DISPLAY_BUFFER_LEN as nat,
        |j: int| 255u8,
    ));
}

/// A frame of grey pixels, all three channels at one value `v`, converts to a
/// buffer in which every byte is the expansion of `v`.
pub proof fn grey_frame_converts_to_one_byte(color: PackedColor, v: u8)
    requires
        v <= 31,
        color.red_value() == v,
        color.green_value() == v,
        color.blue_value() == v,
    ensures
        rgb_bytes(uniform_pixels(color)) == Seq::new(
            DISPLAY_BUFFER_LEN as nat,
            |j: int| expanded(v as int) as u8,
        ),
{
    uniform_frame_converts_uniformly(color);
    assert(rgb_bytes(uniform_pixels(color)) =~= Seq::new(
        DISPLAY_BUFFER_LEN as nat,
        |j: int| expanded(v as int) as u8,
    ));
}

} // verus!
