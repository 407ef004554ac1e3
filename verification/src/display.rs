//! The display adapter: the shared frame, the chosen magnification, and the
//! step that turns one round of the user interface into an image to show.

use crate::acquisition::acquire_and_convert;
use crate::acquisition::shows_one_pass;
use crate::color::PackedColor;
use crate::error::DisplayError;
use crate::frame::uniform_pixels;
use crate::frame::Frame;
use crate::frame::LCD_HEIGHT;
use crate::frame::LCD_WIDTH;
use crate::frame::PIXEL_COUNT;
use crate::image::image_pixels;
use crate::image::image_size;
use crate::image::opaque_pixels;
use crate::image::to_image;
use crate::scale::ScaleFactor;
use crate::store::renders_from_some_frame;
use crate::store::FrameStore;
use egui::ColorImage;
use vstd::prelude::*;

verus! {

/// The factor in force after one round of the three magnification buttons.
/// A button that was not pressed changes nothing; of several pressed in one
/// round the largest wins.
pub open spec fn chosen(current: ScaleFactor, x1: bool, x2: bool, x4: bool) -> ScaleFactor {
    if x4 {
        ScaleFactor::X4
    } else if x2 {
        ScaleFactor::X2
    } else if x1 {
        ScaleFactor::X1
    } else {
        current
    }
}

/// What one round hands to the presentation surface: the image of the frame
/// and the size, in screen pixels, at which to show it.
pub struct Presentation {
    /// The converted frame, as large as the LCD.
    pub image: ColorImage,
    /// Width at which the image is shown.
    pub width: usize,
    /// Height at which the image is shown.
    pub height: usize,
}

/// The display adapter of the emulated machine.
pub struct GbaDisplay {
    pixels_buffer: FrameStore,
    scale: ScaleFactor,
}

impl GbaDisplay {
    /// The magnification in force.
    pub closed spec fn scale_value(self) -> ScaleFactor {
        self.scale
    }

    /// The adapter's handle to the shared frame.
    pub closed spec fn store_value(self) -> FrameStore {
        self.pixels_buffer
    }

    /// The same adapter with `factor` selected.
    pub closed spec fn with_scale(self, factor: ScaleFactor) -> GbaDisplay {
        GbaDisplay { pixels_buffer: self.pixels_buffer, scale: factor }
    }

    /// An adapter with a frame store of its own, holding a black frame, and
    /// the unscaled factor selected.
    pub fn new() -> (display: GbaDisplay)
        ensures
            display.scale_value() == ScaleFactor::X1,
            display.store_value().first_pixels() == uniform_pixels(PackedColor { bits: 0 }),
    {
        GbaDisplay { pixels_buffer: FrameStore::new(), scale: ScaleFactor::X1 }
    }

    /// An adapter on a store that the emulation core already holds, with the
    /// unscaled factor selected.
    pub fn with_store(store: FrameStore) -> (display: GbaDisplay)
        ensures
            display.scale_value() == ScaleFactor::X1,
            display.store_value() == store,
    {
        GbaDisplay { pixels_buffer: store, scale: ScaleFactor::X1 }
    }

    /// The name under which the adapter appears among the tools of the shell.
    pub fn name(&self) -> (name: &'static str)
        ensures
            name@ == "Gba Display"@,
    {
        "Gba Display"
    }

    /// A handle to the adapter's frame store, for the emulation core.
    pub fn store(&self) -> (store: FrameStore)
        ensures
            store == self.store_value(),
    {
        self.pixels_buffer.share()
    }

    /// The magnification in force.
    pub fn scale(&self) -> (factor: ScaleFactor)
        ensures
            factor == self.scale_value(),
    {
        self.scale
    }

    /// Selects a magnification. The frame store is not touched.
    pub fn select_scale(&mut self, factor: ScaleFactor)
        ensures
            *final(self) == old(self).with_scale(factor),
            final(self).scale_value() == factor,
            final(self).store_value() == old(self).store_value(),
    {
        self.scale = factor;
    }

    /// Selects the magnification with the given multiplier. A multiplier
    /// outside the supported set is refused and changes nothing.
    pub fn select_multiplier(&mut self, multiplier: u32) -> (r: Result<(), DisplayError>)
        ensures
            match r {
                Ok(_) => final(self).scale_value().value() == multiplier && *final(self) == old(self).with_scale(final(self).scale_value()),
                Err(e) => e == DisplayError::InvalidScaleFactor(multiplier) && *final(self) == *old(self),
            },
            r is Ok <==> crate::scale::is_supported(multiplier as int),
    {
        match ScaleFactor::from_multiplier(multiplier) {
            Ok(factor) => {
                self.select_scale(factor);
                Ok(())
            },
            Err(e) => Err(e),
        }
    }

    /// One round of the three magnification buttons, each `true` if it was
    /// pressed.
    pub fn press(&mut self, x1: bool, x2: bool, x4: bool)
        ensures
            *final(self) == old(self).with_scale(chosen(old(self).scale_value(), x1, x2, x4)),
            final(self).scale_value() == chosen(old(self).scale_value(), x1, x2, x4),
            final(self).store_value() == old(self).store_value(),
    {
        if x1 {
            self.scale = ScaleFactor::X1;
        }
        if x2 {
            self.scale = ScaleFactor::X2;
        }
        if x4 {
            self.scale = ScaleFactor::X4;
        }
    }

    /// The size at which a frame is presented: the LCD's width and height,
    /// each multiplied by the factor in force.
    pub fn presented_size(&self) -> (size: (usize, usize))
        ensures
            (size.0 as int, size.1 as int) == self.scale_value().presented(),
    {
        self.scale.presented_size()
    }

    /// One round of the user interface. The buttons pressed select the
    /// magnification; then a frame is acquired from the store, with `render`
    /// as the core's render pass, and converted. What comes back is the image
    /// of that one frame and the size at which to show it. When the lock is
    /// poisoned or busy, or the render fails, the error comes back and nothing
    /// is to be shown; the selection has been made all the same.
    pub fn ui<F: FnOnce(Frame) -> Result<Frame, u32>>(
        &mut self,
        x1: bool,
        x2: bool,
        x4: bool,
        render: F,
    ) -> (r: Result<Presentation, DisplayError>)
        requires
            forall|current: Frame| current@.len() == PIXEL_COUNT ==> render.requires((current,)),
        ensures
            *final(self) == old(self).with_scale(chosen(old(self).scale_value(), x1, x2, x4)),
            match r {
                Ok(shown) => {
                    &&& (shown.width as int, shown.height as int) == final(self).scale_value().presented()
                    &&& image_size(shown.image) == (LCD_WIDTH as int, LCD_HEIGHT as int)
                    &&& image_pixels(shown.image).len() == PIXEL_COUNT
                    &&& exists|bytes: Seq<u8>| #[trigger]
                        shows_one_pass(render, bytes) && image_pixels(shown.image)
                            == opaque_pixels(bytes)
                },
                Err(DisplayError::LockPoisoned) => true,
                Err(DisplayError::LockBusy) => true,
                Err(DisplayError::RenderFailure(status)) => renders_from_some_frame(
                    render,
                    Err(status),
                ),
                Err(DisplayError::InvalidScaleFactor(_)) => false,
            },
    {
        self.press(x1, x2, x4);
        match acquire_and_convert(&self.pixels_buffer, render) {
            Ok(buffer) => {
                let image = to_image(&buffer);
                let (width, height) = self.presented_size();
                Ok(Presentation { image, width, height })
            },
            Err(e) => Err(e),
        }
    }
}

/// Selecting a factor twice is selecting it once: the adapter is the same
/// after the second selection as after the first, its store is the one it
/// had, and the presented size is the LCD's size multiplied by the factor.
pub proof fn selection_is_idempotent(display: GbaDisplay, factor: ScaleFactor)
    ensures
        display.with_scale(factor).with_scale(factor) == display.with_scale(factor),
        display.with_scale(factor).scale_value() == factor,
        display.with_scale(factor).store_value() == display.store_value(),
        display.with_scale(factor).scale_value().presented() == (
            LCD_WIDTH * factor.value(),
            LCD_HEIGHT * factor.value(),
        ),
{
}

/// Pressing the same buttons in two rounds leaves the adapter as one round
/// does.
pub proof fn pressing_is_idempotent(current: ScaleFactor, x1: bool, x2: bool, x4: bool)
    ensures
        chosen(chosen(current, x1, x2, x4), x1, x2, x4) == chosen(current, x1, x2, x4),
{
}

} // verus!
