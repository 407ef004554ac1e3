//! The frame: the emulated LCD's grid of packed colours, held row by row.

use crate::color::PackedColor;
use vstd::prelude::*;

verus! {

/// Pixels in one row of the emulated LCD.
pub const LCD_WIDTH: usize = 240;

/// Rows of the emulated LCD.
pub const LCD_HEIGHT: usize = 160;

/// Pixels in one frame.
pub const PIXEL_COUNT: usize = LCD_WIDTH * LCD_HEIGHT;

/// Position in a row-major frame of the pixel in column `x` of row `y`.
pub open spec fn pixel_index(x: int, y: int) -> int {
    y * LCD_WIDTH + x
}

/// A frame in which every pixel has the colour `color`.
pub open spec fn uniform_pixels(color: PackedColor) -> Seq<PackedColor> {
    Seq::new(PIXEL_COUNT as nat, |i: int| color)
}

/// One complete image of the LCD. Its size is fixed when it is made: every
/// frame holds `PIXEL_COUNT` pixels, the rows one after another from the top.
#[derive(Debug)]
pub struct Frame {
    pixels: Vec<PackedColor>,
}

impl View for Frame {
    type V = Seq<PackedColor>;

    /// The pixels in row-major order.
    closed spec fn view(&self) -> Seq<PackedColor> {
        self.pixels@
    }
}

impl Frame {
    #[verifier::type_invariant]
    spec fn sized(self) -> bool {
        self.pixels@.len() == PIXEL_COUNT
    }

    /// The pixel in column `x` of row `y`.
    pub open spec fn at(self, x: int, y: int) -> PackedColor {
        self@[pixel_index(x, y)]
    }

    /// A frame of black pixels, the state of the LCD before the first render.
    pub fn new() -> (frame: Frame)
        ensures
            frame@ == uniform_pixels(PackedColor { bits: 0 }),
    {
        Frame::filled(PackedColor::from_bits(0))
    }

    /// A frame in which every pixel is `color`.
    pub fn filled(color: PackedColor) -> (frame: Frame)
        ensures
            frame@ == uniform_pixels(color),
    {
        let mut pixels: Vec<PackedColor> = Vec::with_capacity(PIXEL_COUNT);
        let mut i: usize = 0;
        while i < PIXEL_COUNT
            invariant
                i <= PIXEL_COUNT,
                pixels@.len() == i,
                forall|j: int| 0 <= j < i ==> pixels@[j] == color,
            decreases PIXEL_COUNT - i,
        {
            pixels.push(color);
            i += 1;
        }
        assert(pixels@ =~= uniform_pixels(color));
        Frame { pixels }
    }

    /// Takes a row-major run of pixels as a frame. It is one exactly when it
    /// holds `PIXEL_COUNT` pixels.
    pub fn from_pixels(pixels: Vec<PackedColor>) -> (frame: Option<Frame>)
        ensures
            frame is Some <==> pixels@.len() == PIXEL_COUNT,
            frame matches Some(f) ==> f@ == pixels@,
    {
        if pixels.len() == PIXEL_COUNT {
            Some(Frame { pixels })
        } else {
            None
        }
    }

    /// The frame with the given rows, from the top, each pixel as the sixteen
    /// bits the hardware stores.
    pub fn from_rows(rows: &[[u16; LCD_WIDTH]; LCD_HEIGHT]) -> (frame: Frame)
        ensures
            frame@.len() == PIXEL_COUNT,
            forall|x: int, y: int|
                0 <= x < LCD_WIDTH && 0 <= y < LCD_HEIGHT ==> (#[trigger] frame.at(x, y)).bits
                    == rows[y][x],
    {
        let mut pixels: Vec<PackedColor> = Vec::with_capacity(PIXEL_COUNT);
        let mut y: usize = 0;
        while y < LCD_HEIGHT
            invariant
                y <= LCD_HEIGHT,
                pixels@.len() == y * LCD_WIDTH,
                forall|i: int, j: int|
                    0 <= i < LCD_WIDTH && 0 <= j < y ==> (#[trigger] pixels@[pixel_index(
                        i,
                        j,
                    )]).bits == rows[j][i],
            decreases LCD_HEIGHT - y,
        {
            let mut x: usize = 0;
            while x < LCD_WIDTH
                invariant
                    y < LCD_HEIGHT,
                    x <= LCD_WIDTH,
                    pixels@.len() == y * LCD_WIDTH + x,
                    forall|i: int, j: int|
                        0 <= i < LCD_WIDTH && 0 <= j < y ==> (#[trigger] pixels@[pixel_index(
                            i,
                            j,
                        )]).bits == rows[j][i],
                    forall|i: int|
                        0 <= i < x ==> (#[trigger] pixels@[pixel_index(i, y as int)]).bits
                            == rows[y as int][i],
                decreases LCD_WIDTH - x,
            {
                pixels.push(PackedColor::from_bits(rows[y][x]));
                x += 1;
            }
            y += 1;
        }
        Frame { pixels }
    }

    /// The number of pixels, which is the same for every frame.
    pub fn len(&self) -> (n: usize)
        ensures
            n == PIXEL_COUNT,
            self@.len() == PIXEL_COUNT,
    {
        proof {
            use_type_invariant(self);
        }
        self.pixels.len()
    }

    /// The pixel at position `i` of the row-major order.
    pub fn get(&self, i: usize) -> (color: PackedColor)
        requires
            i < PIXEL_COUNT,
        ensures
            self@.len() == PIXEL_COUNT,
            color == self@[i as int],
    {
        proof {
            use_type_invariant(self);
        }
        self.pixels[i]
    }

    /// The pixel in column `x` of row `y`.
    pub fn pixel(&self, x: usize, y: usize) -> (color: PackedColor)
        requires
            x < LCD_WIDTH,
            y < LCD_HEIGHT,
        ensures
            self@.len() == PIXEL_COUNT,
            color == self.at(x as int, y as int),
    {
        proof {
            use_type_invariant(self);
        }
        self.pixels[y * LCD_WIDTH + x]
    }

    /// Gives the pixel in column `x` of row `y` the colour `color` and leaves
    /// every other pixel as it was.
    pub fn set_pixel(&mut self, x: usize, y: usize, color: PackedColor)
        requires
            x < LCD_WIDTH,
            y < LCD_HEIGHT,
        ensures
            final(self)@ == old(self)@.update(pixel_index(x as int, y as int), color),
            final(self)@.len() == PIXEL_COUNT,
    {
        proof {
            use_type_invariant(&*self);
        }
        self.pixels[y * LCD_WIDTH + x] = color;
    }

    /// Gives every pixel the colour `color`.
    pub fn fill(&mut self, color: PackedColor)
        ensures
            final(self)@ == uniform_pixels(color),
    {
        proof {
            use_type_invariant(&*self);
        }
        let mut i: usize = 0;
        while i < PIXEL_COUNT
            invariant
                i <= PIXEL_COUNT,
                self.pixels@.len() == PIXEL_COUNT,
                forall|j: int| 0 <= j < i ==> self.pixels@[j] == color,
            decreases PIXEL_COUNT - i,
        {
            self.pixels[i] = color;
            i += 1;
        }
        assert(self.pixels@ =~= uniform_pixels(color));
    }

    /// The pixels in row-major order, borrowed.
    pub fn as_slice(&self) -> (pixels: &[PackedColor])
        ensures
            pixels@ == self@,
            pixels@.len() == PIXEL_COUNT,
    {
        proof {
            use_type_invariant(self);
        }
        self.pixels.as_slice()
    }

    /// A second frame with the same pixels.
    pub fn duplicate(&self) -> (copy: Frame)
        ensures
            copy@ == self@,
            copy@.len() == PIXEL_COUNT,
    {
        proof {
            use_type_invariant(self);
        }
        let mut pixels: Vec<PackedColor> = Vec::with_capacity(PIXEL_COUNT);
        let mut i: usize = 0;
        while i < PIXEL_COUNT
            invariant
                i <= PIXEL_COUNT,
                self.pixels@.len() == PIXEL_COUNT,
                pixels@.len() == i,
                forall|j: int| 0 <= j < i ==> pixels@[j] == self.pixels@[j],
            decreases PIXEL_COUNT - i,
        {
            pixels.push(self.pixels[i]);
            i += 1;
        }
        assert(pixels@ =~= self.pixels@);
        Frame { pixels }
    }
}

} // verus!
