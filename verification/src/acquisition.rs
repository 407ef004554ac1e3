//! Frame acquisition and conversion: one render pass under the lock, then the
//! re-encoding of the frame it produced, with the lock already given up.

use crate::buffer::rgb_bytes;
use crate::buffer::DisplayBuffer;
use crate::buffer::DISPLAY_BUFFER_LEN;
use crate::color::PackedColor;
use crate::error::DisplayError;
use crate::frame::uniform_pixels;
use crate::frame::Frame;
use crate::frame::PIXEL_COUNT;
use crate::store::renders;
use crate::store::renders_from_some_frame;
use crate::store::FrameStore;
use vstd::prelude::*;

verus! {

/// Whether `bytes` encode one complete frame that one pass of `render`
/// returned.
pub open spec fn shows_one_pass<F: FnOnce(Frame) -> Result<Frame, u32>>(
    render: F,
    bytes: Seq<u8>,
) -> bool {
    exists|frame: Frame|
        frame@.len() == PIXEL_COUNT && #[trigger] renders_from_some_frame(render, Ok(frame))
            && bytes == rgb_bytes(frame@)
}

/// What an acquisition has come to, re-encoded: an acquired frame becomes its
/// display buffer, and a failure is passed on as it is.
pub fn convert_acquired(outcome: Result<Frame, DisplayError>) -> (r: Result<
    DisplayBuffer,
    DisplayError,
>)
    ensures
        match outcome {
            Ok(frame) => r matches Ok(buffer) && buffer@ == rgb_bytes(frame@) && buffer@.len()
                == DISPLAY_BUFFER_LEN,
            Err(e) => r matches Err(passed) && passed == e,
        },
{
    match outcome {
        Ok(frame) => Ok(DisplayBuffer::convert(&frame)),
        Err(e) => Err(e),
    }
}

/// Acquires a frame from the store and converts it. The lock is held while
/// `render` runs and while the pixels are read out, and it is given up before
/// the conversion starts. The buffer that comes back encodes the one frame
/// that this call's render pass returned. A poisoned lock, a busy lock and a
/// failed render come back as errors, the last with the core's status; no
/// buffer is made up in their place. The call does not wait for a busy lock.
pub fn acquire_and_convert<F: FnOnce(Frame) -> Result<Frame, u32>>(
    store: &FrameStore,
    render: F,
) -> (r: Result<DisplayBuffer, DisplayError>)
    requires
        forall|current: Frame| current@.len() == PIXEL_COUNT ==> render.requires((current,)),
    ensures
        match r {
            Ok(buffer) => shows_one_pass(render, buffer@) && buffer@.len() == DISPLAY_BUFFER_LEN,
            Err(DisplayError::LockPoisoned) => true,
            Err(DisplayError::LockBusy) => true,
            Err(DisplayError::RenderFailure(status)) => renders_from_some_frame(
                render,
                Err(status),
            ),
            Err(DisplayError::InvalidScaleFactor(_)) => false,
        },
{
    let acquired = store.acquire(render);
    convert_acquired(acquired)
}

/// Two patterns do not mix within one critical section. Let the frame held
/// when the lock is taken be uniformly `a` or uniformly `b`, and let every
/// frame that `render` returns be the frame it was given, or uniformly `a`, or
/// uniformly `b`. Then the frame that a render pass returns under the lock
/// converts to the encoding of one of the two patterns, whole.
pub proof fn one_pass_shows_one_pattern<F: FnOnce(Frame) -> Result<Frame, u32>>(
    render: F,
    held: Seq<PackedColor>,
    a: PackedColor,
    b: PackedColor,
    frame: Frame,
)
    requires
        held == uniform_pixels(a) || held == uniform_pixels(b),
        forall|current: Frame, rendered: Frame| #[trigger]
            render.ensures((current,), Ok(rendered)) ==> rendered@ == current@ || rendered@
                == uniform_pixels(a) || rendered@ == uniform_pixels(b),
        renders(render, held, Ok(frame)),
    ensures
        rgb_bytes(frame@) == rgb_bytes(uniform_pixels(a)) || rgb_bytes(frame@) == rgb_bytes(
            uniform_pixels(b),
        ),
{
}

} // verus!
