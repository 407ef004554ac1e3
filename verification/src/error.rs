//! What can go wrong between the emulation core and the screen.

use vstd::prelude::*;

verus! {

/// The failures of the display adapter. The library retries none of them:
/// each goes to the caller as it is.
#[derive(Clone, Copy, Debug, PartialEq, Eq, Structural)]
pub enum DisplayError {
    /// A holder of the frame's lock failed while it held it. The frame can no
    /// longer be trusted and is not read.
    LockPoisoned,
    /// Another holder has the frame's lock at this moment. Nothing was read or
    /// written; the caller may try again.
    LockBusy,
    /// The emulation core could not render. The value is the status that the
    /// core reported.
    RenderFailure(u32),
    /// A magnification outside the supported set was asked for. The value is
    /// the factor that was refused.
    InvalidScaleFactor(u32),
}

impl DisplayError {
    /// Whether the same call may succeed if it is made again. That is so of a
    /// busy lock alone: a poisoned lock stays poisoned, and a failed render
    /// and a refused magnification are for the caller to deal with.
    pub fn is_transient(&self) -> (transient: bool)
        ensures
            transient <==> *self == DisplayError::LockBusy,
    {
        match self {
            DisplayError::LockBusy => true,
            _ => false,
        }
    }
}

} // verus!
