//! The camera engine's controller: it owns the running capture and renderer
//! and the frame queue between them. `start` builds a capture and a
//! renderer, starts them, and only then records both; `stop` takes the
//! capture out first, stops it, and then takes and stops the renderer.
use vstd::prelude::*;
use crate::error::CameraError;
use crate::frame_queue::{FrameQueue, FRAME_QUEUE_CAPACITY};

verus! {

/// What a controller holds, seen without the resources themselves.
#[derive(Clone, Copy, Debug, PartialEq, Eq, Structural)]
pub struct Holding {
    pub capture: bool,
    pub renderer: bool,
}

/// The controller's holding once `stop` has taken the capture out.
pub open spec fn capture_taken(h: Holding) -> Holding {
    Holding { capture: false, ..h }
}

/// The controller's holding once `stop` has taken the renderer out.
pub open spec fn renderer_taken(h: Holding) -> Holding {
    Holding { renderer: false, ..h }
}

/// The controller's holding after a `start` that went through.
pub open spec fn fully_held() -> Holding {
    Holding { capture: true, renderer: true }
}

/// The camera controller, over the capture type `C` and the renderer type
/// `R` that do the outside work.
pub struct CameraController<C, R> {
    capture: Option<C>,
    renderer: Option<R>,
    frames: FrameQueue,
}

impl<C, R> CameraController<C, R> {
    /// The running capture, if any.
    pub closed spec fn capture_slot(self) -> Option<C> {
        self.capture
    }

    /// The running renderer, if any.
    pub closed spec fn renderer_slot(self) -> Option<R> {
        self.renderer
    }

    /// The capacity of the frame queue.
    pub closed spec fn queue_capacity(self) -> Option<usize> {
        self.frames.capacity_spec()
    }

    /// The frame queue itself.
    pub closed spec fn frame_queue(self) -> FrameQueue {
        self.frames
    }

    /// Which resources the controller holds.
    pub open spec fn holding(self) -> Holding {
        Holding { capture: self.capture_slot() is Some, renderer: self.renderer_slot() is Some }
    }

    /// A controller that holds nothing, with an empty frame queue of
    /// `FRAME_QUEUE_CAPACITY` slots.
    pub fn new() -> (c: CameraController<C, R>)
        ensures
            c.capture_slot() is None,
            c.renderer_slot() is None,
            c.queue_capacity() == Some(FRAME_QUEUE_CAPACITY),
    {
        CameraController { capture: None, renderer: None, frames: FrameQueue::new() }
    }

    /// The queue that carries frame handles from the capture to the
    /// renderer.
    pub fn frames(&self) -> (q: &FrameQueue)
        ensures
            *q == self.frame_queue(),
            q.capacity_spec() == self.queue_capacity(),
    {
        &self.frames
    }

    /// Records the capture and the renderer of a `start` whose every step
    /// went through; whatever was held before is let go.
    pub fn install(&mut self, capture: C, renderer: R)
        ensures
            final(self).capture_slot() == Some(capture),
            final(self).renderer_slot() == Some(renderer),
            final(self).holding() == fully_held(),
            final(self).queue_capacity() == old(self).queue_capacity(),
            final(self).frame_queue() == old(self).frame_queue(),
    {
        self.capture = Some(capture);
        self.renderer = Some(renderer);
    }

    /// The first step of `stop`: takes the capture out, so that the
    /// controller no longer holds it whether or not stopping it succeeds.
    pub fn take_capture(&mut self) -> (c: Option<C>)
        ensures
            c == old(self).capture_slot(),
            final(self).capture_slot() is None,
            final(self).renderer_slot() == old(self).renderer_slot(),
            final(self).holding() == capture_taken(old(self).holding()),
            final(self).queue_capacity() == old(self).queue_capacity(),
            final(self).frame_queue() == old(self).frame_queue(),
    {
        self.capture.take()
    }

    /// Takes the renderer out, once the capture is stopped.
    pub fn take_renderer(&mut self) -> (r: Option<R>)
        ensures
            r == old(self).renderer_slot(),
            final(self).renderer_slot() is None,
            final(self).capture_slot() == old(self).capture_slot(),
            final(self).holding() == renderer_taken(old(self).holding()),
            final(self).queue_capacity() == old(self).queue_capacity(),
            final(self).frame_queue() == old(self).frame_queue(),
    {
        self.renderer.take()
    }
}

/// A device or context asked for, or the common error `what` when none
/// came back.
pub fn require<T>(created: Option<T>, what: &str) -> (r: Result<T, CameraError>)
    ensures
        created matches Some(x) ==> r == Ok::<T, CameraError>(x),
        created is None ==> (r matches Err(e) && e is CommonError && e.msg_view() == what@),
{
    match created {
        Some(x) => Ok(x),
        None => Err(CameraError::common(what)),
    }
}

/// The error for an output view that was asked for and not produced.
pub fn missing_output_view() -> (e: CameraError)
    ensures
        e is CommonError,
        e.msg_view() == "Failed to load output view"@,
{
    CameraError::common("Failed to load output view")
}

} // verus!
