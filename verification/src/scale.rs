//! The magnification at which a converted frame is shown.

use crate::error::DisplayError;
use crate::frame::LCD_HEIGHT;
use crate::frame::LCD_WIDTH;
use vstd::prelude::*;

verus! {

/// The supported magnifications. A factor changes the size at which a frame
/// is presented and nothing else.
#[derive(Clone, Copy, Debug, PartialEq, Eq, Structural)]
pub enum ScaleFactor {
    /// Unscaled: one screen pixel for each LCD pixel.
    X1,
    /// Twice the LCD's size in each direction.
    X2,
    /// Four times the LCD's size in each direction.
    X4,
}

/// Whether `multiplier` is one of the supported magnifications.
pub open spec fn is_supported(multiplier: int) -> bool {
    multiplier == 1 || multiplier == 2 || multiplier == 4
}

impl ScaleFactor {
    /// The number by which the factor multiplies a length.
    pub open spec fn value(self) -> int {
        match self {
            ScaleFactor::X1 => 1,
            ScaleFactor::X2 => 2,
            ScaleFactor::X4 => 4,
        }
    }

    /// The size at which the LCD is presented under this factor: its width and
    /// its height, each multiplied by the factor.
    pub open spec fn presented(self) -> (int, int) {
        (LCD_WIDTH * self.value(), LCD_HEIGHT * self.value())
    }

    /// The number by which the factor multiplies a length.
    pub fn multiplier(&self) -> (m: u32)
        ensures
            m == self.value(),
            is_supported(m as int),
    {
        match self {
            ScaleFactor::X1 => 1,
            ScaleFactor::X2 => 2,
            ScaleFactor::X4 => 4,
        }
    }

    /// The factor with the given multiplier. A multiplier outside the
    /// supported set is refused and named in the error.
    pub fn from_multiplier(multiplier: u32) -> (r: Result<ScaleFactor, DisplayError>)
        ensures
            r is Ok <==> is_supported(multiplier as int),
            r matches Ok(factor) ==> factor.value() == multiplier,
            r matches Err(e) ==> e == DisplayError::InvalidScaleFactor(multiplier),
    {
        if multiplier == 1 {
            Ok(ScaleFactor::X1)
        } else if multiplier == 2 {
            Ok(ScaleFactor::X2)
        } else if multiplier == 4 {
            Ok(ScaleFactor::X4)
        } else {
            Err(DisplayError::InvalidScaleFactor(multiplier))
        }
    }

    /// A base size magnified: width and height, each multiplied by the factor.
    pub fn scale_size(&self, width: u32, height: u32) -> (size: (u64, u64))
        ensures
            size.0 == width * self.value(),
            size.1 == height * self.value(),
    {
        let m: u64 = self.multiplier() as u64;
        assert(width * self.value() <= 4 * 0xffff_ffff && height * self.value() <= 4 * 0xffff_ffff)
            by (nonlinear_arith)
            requires
                1 <= self.value() <= 4,
                0 <= width <= 0xffff_ffff,
                0 <= height <= 0xffff_ffff,
        ;
        (width as u64 * m, height as u64 * m)
    }

    /// The size at which the LCD is presented under this factor.
    pub fn presented_size(&self) -> (size: (usize, usize))
        ensures
            (size.0 as int, size.1 as int) == self.presented(),
    {
        match self {
            ScaleFactor::X1 => (LCD_WIDTH, LCD_HEIGHT),
            ScaleFactor::X2 => (2 * LCD_WIDTH, 2 * LCD_HEIGHT),
            ScaleFactor::X4 => (4 * LCD_WIDTH, 4 * LCD_HEIGHT),
        }
    }
}

impl Default for ScaleFactor {
    /// The unscaled factor.
    fn default() -> (factor: ScaleFactor)
        ensures
            factor == ScaleFactor::X1,
    {
        ScaleFactor::X1
    }
}

} // verus!
