//! The shared frame store: one frame behind one lock, with a handle for the
//! emulation core that writes it and one for the display adapter that reads
//! it.

use crate::color::PackedColor;
use crate::error::DisplayError;
use crate::frame::uniform_pixels;
use crate::frame::Frame;
use crate::frame::PIXEL_COUNT;
use std::sync::Arc;
use std::sync::Mutex;
use std::sync::MutexGuard;
use vstd::prelude::*;

verus! {

/// The standard library's mutual-exclusion lock, `std::sync::Mutex`. Nothing
/// is said of what a lock holds while it is not held: another thread may be
/// writing it.
#[verifier::external_type_specification]
#[verifier::external_body]
#[verifier::reject_recursive_types(T)]
pub struct ExMutex<T: ?Sized>(std::sync::Mutex<T>);

/// The standard library's `std::sync::MutexGuard`: the lock, held. The frame
/// behind it belongs to the holder until the guard is dropped.
#[verifier::external_type_specification]
#[verifier::external_body]
#[verifier::reject_recursive_types(T)]
pub struct ExMutexGuard<'a, T: ?Sized + 'a>(std::sync::MutexGuard<'a, T>);

/// The pixels of the frame behind a held lock.
pub uninterp spec fn held_pixels(guard: MutexGuard<'_, Frame>) -> Seq<PackedColor>;

/// The pixels of the frame that a lock was made around. This is the lock's
/// first content and stays what it is; of what the lock holds once a holder
/// has written through it, it says nothing.
pub uninterp spec fn made_around(lock: Mutex<Frame>) -> Seq<PackedColor>;

/// Calls `std::sync::Mutex::new`: a lock, not held, whose first content is
/// `frame`.
#[verifier::external_body]
fn lock_around(frame: Frame) -> (lock: Mutex<Frame>)
    ensures
        made_around(lock) == frame@,
{
    Mutex::new(frame)
}

/// What one attempt to take the lock has come to.
pub enum LockOutcome<'a> {
    /// The lock was free and is now held through this guard.
    Held(MutexGuard<'a, Frame>),
    /// A holder panicked while it held the lock.
    Poisoned,
    /// Someone holds the lock at this moment.
    Busy,
}

/// Calls `std::sync::Mutex::try_lock`, which returns at once in every state
/// of the lock and documents no panic. The three outcomes are its own: the
/// guard, the error `Poisoned`, the error `WouldBlock`. Which of them comes
/// rests with the holders of the lock, the calling thread among them, so
/// nothing is claimed of it, nor of the frame found.
#[verifier::external_body]
fn try_lock_frame<'a>(lock: &'a Mutex<Frame>) -> (outcome: LockOutcome<'a>) {
    match lock.try_lock() {
        Ok(guard) => LockOutcome::Held(guard),
        Err(std::sync::TryLockError::Poisoned(_)) => LockOutcome::Poisoned,
        Err(std::sync::TryLockError::WouldBlock) => LockOutcome::Busy,
    }
}

/// Dereferences a guard (`Deref::deref` of `MutexGuard`): the frame behind the
/// held lock, which is the one that `held_pixels` speaks of.
#[verifier::external_body]
fn held_frame<'a>(guard: &'a MutexGuard<'_, Frame>) -> (frame: &'a Frame)
    ensures
        frame@ == held_pixels(*guard),
{
    &**guard
}

/// Assigns through a guard (`DerefMut::deref_mut` of `MutexGuard`): the frame
/// behind the held lock is `frame` from now on.
#[verifier::external_body]
fn put_frame(guard: &mut MutexGuard<'_, Frame>, frame: Frame)
    ensures
        held_pixels(*final(guard)) == frame@,
{
    **guard = frame;
}

/// A handle to the shared frame. Handles made by `share` reach the same frame
/// through the same lock; the frame lives as long as any of them.
pub struct FrameStore {
    shared: Arc<Mutex<Frame>>,
}

/// Exclusive access to the shared frame, from the moment the lock is taken to
/// the moment this value is dropped, on whatever path that happens. While it
/// exists no other holder reads or writes the frame: whoever asks the store
/// for access meanwhile, the holder itself included, is told `LockBusy`.
pub struct FrameAccess<'a> {
    guard: MutexGuard<'a, Frame>,
}

impl<'a> View for FrameAccess<'a> {
    type V = Seq<PackedColor>;

    /// The pixels of the frame that is held.
    closed spec fn view(&self) -> Seq<PackedColor> {
        held_pixels(self.guard)
    }
}

/// Whether `render`, given some frame with the pixels `before`, can come back
/// with `outcome`.
pub open spec fn renders<F: FnOnce(Frame) -> Result<Frame, u32>>(
    render: F,
    before: Seq<PackedColor>,
    outcome: Result<Frame, u32>,
) -> bool {
    exists|current: Frame| current@ == before && #[trigger] render.ensures((current,), outcome)
}

/// Whether `render`, given some complete frame, can come back with `outcome`.
pub open spec fn renders_from_some_frame<F: FnOnce(Frame) -> Result<Frame, u32>>(
    render: F,
    outcome: Result<Frame, u32>,
) -> bool {
    exists|current: Frame|
        current@.len() == PIXEL_COUNT && #[trigger] render.ensures((current,), outcome)
}

impl<'a> FrameAccess<'a> {
    /// The answer to one attempt on the lock. A guard gives access to the
    /// frame behind it; a poisoned lock and a lock that someone holds each
    /// give their own error.
    pub fn granted(outcome: LockOutcome<'a>) -> (r: Result<FrameAccess<'a>, DisplayError>)
        ensures
            match outcome {
                LockOutcome::Held(guard) => r matches Ok(access) && access@ == held_pixels(guard)
                    && access@.len() == PIXEL_COUNT,
                LockOutcome::Poisoned => r matches Err(e) && e == DisplayError::LockPoisoned,
                LockOutcome::Busy => r matches Err(e) && e == DisplayError::LockBusy,
            },
    {
        match outcome {
            LockOutcome::Held(guard) => {
                let _complete: usize = held_frame(&guard).len();
                Ok(FrameAccess { guard })
            },
            LockOutcome::Poisoned => Err(DisplayError::LockPoisoned),
            LockOutcome::Busy => Err(DisplayError::LockBusy),
        }
    }

    /// The frame that is held.
    pub fn frame(&self) -> (frame: &Frame)
        ensures
            frame@ == self@,
            frame@.len() == PIXEL_COUNT,
    {
        let frame = held_frame(&self.guard);
        let _complete: usize = frame.len();
        frame
    }

    /// A copy of the frame that is held: all its pixels, in row-major order.
    pub fn read_out(&self) -> (copy: Frame)
        ensures
            copy@ == self@,
            copy@.len() == PIXEL_COUNT,
    {
        held_frame(&self.guard).duplicate()
    }

    /// Puts `frame` in the place of the frame that is held.
    pub fn replace(&mut self, frame: Frame)
        ensures
            final(self)@ == frame@,
    {
        put_frame(&mut self.guard, frame);
    }

    /// One render pass under the lock. `render` is given the frame that is held
    /// and returns the frame it has rendered, or the status with which it
    /// failed. A rendered frame takes the place of the held one and is
    /// returned. After a failure the held frame is as it was, and the status
    /// comes back as `RenderFailure`. `render` works on the frame it is
    /// given; should it turn to the store, it finds the lock busy.
    pub fn render<F: FnOnce(Frame) -> Result<Frame, u32>>(&mut self, render: F) -> (r: Result<
        Frame,
        DisplayError,
    >)
        requires
            forall|current: Frame| current@ == old(self)@ ==> render.requires((current,)),
        ensures
            match r {
                Ok(frame) => final(self)@ == frame@ && frame@.len() == PIXEL_COUNT && renders(
                    render,
                    old(self)@,
                    Ok(frame),
                ),
                Err(e) => final(self)@ == old(self)@ && exists|status: u32|
                    e == DisplayError::RenderFailure(status) && #[trigger] renders(
                        render,
                        old(self)@,
                        Err(status),
                    ),
            },
    {
        let current = self.read_out();
        let outcome = render(current);
        assert(renders(render, old(self)@, outcome));
        match outcome {
            Ok(frame) => {
                self.replace(frame.duplicate());
                Ok(frame)
            },
            Err(status) => Err(DisplayError::RenderFailure(status)),
        }
    }
}

impl FrameStore {
    /// The pixels with which the store was made: what it held before any
    /// holder wrote to it. Every handle to one store has the same.
    pub closed spec fn first_pixels(self) -> Seq<PackedColor> {
        made_around(*self.shared)
    }

    /// A store of its own, made with a black frame: the LCD before the first
    /// render.
    pub fn new() -> (store: FrameStore)
        ensures
            store.first_pixels() == uniform_pixels(PackedColor { bits: 0 }),
    {
        FrameStore { shared: Arc::new(lock_around(Frame::new())) }
    }

    /// A second handle to the same frame behind the same lock.
    pub fn share(&self) -> (other: FrameStore)
        ensures
            other == *self,
    {
        FrameStore { shared: self.shared.clone() }
    }

    /// Takes the lock if it is free, and does not wait if it is not. The
    /// failures are a poisoned lock and a lock that someone holds.
    pub fn access(&self) -> (r: Result<FrameAccess<'_>, DisplayError>)
        ensures
            r matches Ok(access) ==> access@.len() == PIXEL_COUNT,
            r matches Err(e) ==> e == DisplayError::LockPoisoned || e == DisplayError::LockBusy,
    {
        FrameAccess::granted(try_lock_frame(&self.shared))
    }

    /// The writer's step: under the lock, puts `frame` in the place of the
    /// stored frame, whole. With the lock poisoned or busy nothing is
    /// written.
    pub fn publish(&self, frame: Frame) -> (r: Result<(), DisplayError>)
        ensures
            r matches Err(e) ==> e == DisplayError::LockPoisoned || e == DisplayError::LockBusy,
    {
        match self.access() {
            Ok(mut access) => {
                access.replace(frame);
                Ok(())
            },
            Err(e) => Err(e),
        }
    }

    /// Frame acquisition: takes the lock, has the core render, reads out all
    /// pixels of the frame just rendered, and gives the lock up. The frame
    /// that comes back is the one this render pass returned; when the pass
    /// fails its status comes back and no frame does. With the lock poisoned
    /// or busy nothing is rendered or read. `render` runs while the lock is
    /// held.
    pub fn acquire<F: FnOnce(Frame) -> Result<Frame, u32>>(&self, render: F) -> (r: Result<
        Frame,
        DisplayError,
    >)
        requires
            forall|current: Frame| current@.len() == PIXEL_COUNT ==> render.requires((current,)),
        ensures
            match r {
                Ok(frame) => frame@.len() == PIXEL_COUNT && renders_from_some_frame(
                    render,
                    Ok(frame),
                ),
                Err(DisplayError::LockPoisoned) => true,
                Err(DisplayError::LockBusy) => true,
                Err(DisplayError::RenderFailure(status)) => renders_from_some_frame(
                    render,
                    Err(status),
                ),
                Err(DisplayError::InvalidScaleFactor(_)) => false,
            },
    {
        match self.access() {
            Ok(mut access) => access.render(render),
            Err(e) => Err(e),
        }
    }
}

} // verus!
