//! The render side: the swap chain and video processor settings, and the
//! session that turns queued shared-texture handles into presented frames.
//!
//! A render session draws the frames pending in the queue and stops once
//! the queue holds no more. It decides, step by step, what outside work comes next;
//! whoever drives it performs that work and reports how it went. The session
//! keeps account of the handles it took from the queue and of the handles it
//! had closed, and it never stops with a handle left open.
use vstd::prelude::*;
use crate::types::VideoDimensions;

verus! {

/// The pixel format of the back buffers: B8G8R8A8, unsigned normalized,
/// the format that AWT windows on Windows take.
#[derive(Clone, Copy, Debug, PartialEq, Eq, Structural)]
pub enum PixelFormat {
    B8G8R8A8Unorm,
}

/// What the back buffers are used for.
#[derive(Clone, Copy, Debug, PartialEq, Eq, Structural)]
pub enum BufferUsage {
    RenderTargetOutput,
}

/// How a back buffer is fitted to the window.
#[derive(Clone, Copy, Debug, PartialEq, Eq, Structural)]
pub enum Scaling {
    Stretch,
}

/// What happens to a back buffer once presented: the flip model of
/// Windows 10 and 11, discarding the buffer's contents.
#[derive(Clone, Copy, Debug, PartialEq, Eq, Structural)]
pub enum SwapEffect {
    FlipDiscard,
}

/// How the back buffer's alpha channel is treated.
#[derive(Clone, Copy, Debug, PartialEq, Eq, Structural)]
pub enum AlphaMode {
    Ignore,
}

/// The swap chain the renderer presents into.
#[derive(Clone, Copy, Debug, PartialEq, Eq, Structural)]
pub struct SwapChainConfig {
    pub width: u32,
    pub height: u32,
    pub format: PixelFormat,
    pub usage: BufferUsage,
    pub scaling: Scaling,
    pub swap_effect: SwapEffect,
    pub alpha_mode: AlphaMode,
    pub buffer_count: u32,
    pub sample_count: u32,
    pub sample_quality: u32,
    pub stereo: bool,
    pub flags: u32,
}

/// A frame rate as a fraction of frames per second.
#[derive(Clone, Copy, Debug, PartialEq, Eq, Structural)]
pub struct FrameRate {
    pub numerator: u32,
    pub denominator: u32,
}

/// How the camera's frames are laid out in time.
#[derive(Clone, Copy, Debug, PartialEq, Eq, Structural)]
pub enum FrameFormat {
    Progressive,
}

/// What the video processor is tuned for.
#[derive(Clone, Copy, Debug, PartialEq, Eq, Structural)]
pub enum ProcessorUsage {
    PlaybackNormal,
}

/// What the video processor converts: progressive frames of the camera's
/// size into frames of the swap chain's size, both at 60 frames a second,
/// for normal playback.
#[derive(Clone, Copy, Debug, PartialEq, Eq, Structural)]
pub struct ProcessorContent {
    pub frame_format: FrameFormat,
    pub usage: ProcessorUsage,
    pub input: VideoDimensions,
    pub output: VideoDimensions,
    pub input_rate: FrameRate,
    pub output_rate: FrameRate,
}

/// The swap chain for a window of `width` x `height` pixels: two stretched
/// B8G8R8A8 buffers for render-target output, flipped and discarded, alpha
/// ignored, one sample per pixel at quality 0, no stereo, no flags.
pub fn swap_chain_config(width: u32, height: u32) -> (c: SwapChainConfig)
    ensures
        c.width == width,
        c.height == height,
        c.format == PixelFormat::B8G8R8A8Unorm,
        c.usage == BufferUsage::RenderTargetOutput,
        c.scaling == Scaling::Stretch,
        c.swap_effect == SwapEffect::FlipDiscard,
        c.alpha_mode == AlphaMode::Ignore,
        c.buffer_count == 2,
        c.sample_count == 1,
        c.sample_quality == 0,
        !c.stereo,
        c.flags == 0,
{
    SwapChainConfig {
        width,
        height,
        format: PixelFormat::B8G8R8A8Unorm,
        usage: BufferUsage::RenderTargetOutput,
        scaling: Scaling::Stretch,
        swap_effect: SwapEffect::FlipDiscard,
        alpha_mode: AlphaMode::Ignore,
        buffer_count: 2,
        sample_count: 1,
        sample_quality: 0,
        stereo: false,
        flags: 0,
    }
}

/// The processor content for camera frames of size `input` drawn into a
/// swap chain whose buffers are `output_width` x `output_height`.
pub fn processor_content(input: VideoDimensions, output_width: u32, output_height: u32) -> (c: ProcessorContent)
    ensures
        c.frame_format == FrameFormat::Progressive,
        c.usage == ProcessorUsage::PlaybackNormal,
        c.input == input,
        c.output.width == output_width,
        c.output.height == output_height,
        c.input_rate == (FrameRate { numerator: 60, denominator: 1 }),
        c.output_rate == (FrameRate { numerator: 60, denominator: 1 }),
{
    let rate = FrameRate { numerator: 60, denominator: 1 };
    ProcessorContent {
        frame_format: FrameFormat::Progressive,
        usage: ProcessorUsage::PlaybackNormal,
        input,
        output: VideoDimensions { width: output_width, height: output_height },
        input_rate: rate,
        output_rate: rate,
    }
}

/// A Direct3D feature level that the device may be created at.
#[derive(Clone, Copy, Debug, PartialEq, Eq, Structural)]
pub enum FeatureLevel {
    Level11_1,
    Level11_0,
}

/// The display adapter the device is created on.
#[derive(Clone, Copy, Debug, PartialEq, Eq, Structural)]
pub enum AdapterChoice {
    /// The default adapter: the primary GPU.
    Default,
}

/// The kind of view the video processor reads from or writes to.
#[derive(Clone, Copy, Debug, PartialEq, Eq, Structural)]
pub enum ViewDimension {
    Texture2D,
}

/// How the Direct3D device is created: on the default adapter's hardware
/// driver, with BGRA support for GDI and Direct2D interoperation, at the
/// first of the two feature levels the driver supports, and with the debug
/// layer in development builds only.
#[derive(Clone, Copy, Debug, PartialEq, Eq, Structural)]
pub struct DeviceSettings {
    pub adapter: AdapterChoice,
    pub hardware_driver: bool,
    pub bgra_support: bool,
    pub debug_layer: bool,
    pub preferred_level: FeatureLevel,
    pub fallback_level: FeatureLevel,
}

/// The fixed arguments of the per-frame video processor calls: the input
/// view reads a 2D texture in its own format (FourCC 0) at mip slice 0 and
/// array slice 0; the output view writes mip slice 0 of 2D back buffer 0; the processor
/// is made with rate-conversion index 0 and blits output frame 0; each frame
/// is presented at sync interval 1 with no present flags.
#[derive(Clone, Copy, Debug, PartialEq, Eq, Structural)]
pub struct ViewSettings {
    pub input_dimension: ViewDimension,
    pub output_dimension: ViewDimension,
    pub input_four_cc: u32,
    pub input_mip_slice: u32,
    pub input_array_slice: u32,
    pub output_mip_slice: u32,
    pub back_buffer_index: u32,
    pub rate_conversion_index: u32,
    pub output_frame: u32,
    pub sync_interval: u32,
    pub present_flags: u32,
}

/// The device settings; `debug_build` says whether this is a development
/// build.
pub fn device_settings(debug_build: bool) -> (d: DeviceSettings)
    ensures
        d.adapter == AdapterChoice::Default,
        d.hardware_driver,
        d.bgra_support,
        d.debug_layer == debug_build,
        d.preferred_level == FeatureLevel::Level11_1,
        d.fallback_level == FeatureLevel::Level11_0,
{
    DeviceSettings {
        adapter: AdapterChoice::Default,
        hardware_driver: true,
        bgra_support: true,
        debug_layer: debug_build,
        preferred_level: FeatureLevel::Level11_1,
        fallback_level: FeatureLevel::Level11_0,
    }
}

/// The fixed arguments of the video processor calls.
pub fn view_settings() -> (v: ViewSettings)
    ensures
        v.input_dimension == ViewDimension::Texture2D,
        v.output_dimension == ViewDimension::Texture2D,
        v.input_four_cc == 0,
        v.input_mip_slice == 0,
        v.input_array_slice == 0,
        v.output_mip_slice == 0,
        v.back_buffer_index == 0,
        v.rate_conversion_index == 0,
        v.output_frame == 0,
        v.sync_interval == 1,
        v.present_flags == 0,
{
    ViewSettings {
        input_dimension: ViewDimension::Texture2D,
        output_dimension: ViewDimension::Texture2D,
        input_four_cc: 0,
        input_mip_slice: 0,
        input_array_slice: 0,
        output_mip_slice: 0,
        back_buffer_index: 0,
        rate_conversion_index: 0,
        output_frame: 0,
        sync_interval: 1,
        present_flags: 0,
    }
}

/// The drawing steps for one frame, in the order they run.
#[derive(Clone, Copy, Debug, PartialEq, Eq, Structural)]
pub enum DrawStep {
    /// Wrap the opened texture in a video processor input view.
    CreateInputView,
    /// Fetch the swap chain's back buffer.
    AcquireBackBuffer,
    /// Wrap the back buffer in a video processor output view.
    CreateOutputView,
    /// Convert the frame into the back buffer on the GPU.
    Blit,
    /// Present the back buffer in the window.
    Present,
}

/// Where a render session stands.
#[derive(Debug)]
pub enum RenderPhase<E> {
    /// Setting up the video processor for the stream.
    Preparing,
    /// Taking the next pending handle from the queue.
    Waiting,
    /// Opening the shared texture behind this handle.
    Opening(u64),
    /// Closing this handle; `failure` is the error of a failed open, after
    /// which the session stops.
    Releasing { handle: u64, failure: Option<E> },
    /// Drawing the current frame, at this step.
    Drawing(DrawStep),
    /// The session is over, with this result.
    Stopped(Result<(), E>),
}

/// What the driver of a session reports back.
#[derive(Debug)]
pub enum RenderEvent<E> {
    /// The queue handed over this handle.
    FrameArrived(u64),
    /// No handle is pending in the queue: every frame sent so far is drawn.
    QueueDrained,
    /// The requested work succeeded.
    StepDone,
    /// The requested work failed with this error.
    StepFailed(E),
    /// Creating the output view succeeded but produced no view.
    OutputViewMissing,
}

/// The outside work that a session asks for next.
#[derive(Clone, Copy, Debug, PartialEq, Eq, Structural)]
pub enum RenderAction {
    /// Set up the video processor.
    Prepare,
    /// Take the next pending handle from the queue, without waiting.
    TakePendingFrame,
    /// Open the shared texture behind this handle.
    OpenSharedTexture(u64),
    /// Close this handle; how that goes does not matter.
    CloseHandle(u64),
    /// Perform this drawing step.
    Draw(DrawStep),
    /// Nothing more: the session is over.
    Finish,
}

/// The drawing step that follows `step`; `Present` is the last one.
pub open spec fn following_step(step: DrawStep) -> Option<DrawStep> {
    match step {
        DrawStep::CreateInputView => Some(DrawStep::AcquireBackBuffer),
        DrawStep::AcquireBackBuffer => Some(DrawStep::CreateOutputView),
        DrawStep::CreateOutputView => Some(DrawStep::Blit),
        DrawStep::Blit => Some(DrawStep::Present),
        DrawStep::Present => None,
    }
}

/// The work asked for in `phase`.
pub open spec fn action_for<E>(phase: RenderPhase<E>) -> RenderAction {
    match phase {
        RenderPhase::Preparing => RenderAction::Prepare,
        RenderPhase::Waiting => RenderAction::TakePendingFrame,
        RenderPhase::Opening(h) => RenderAction::OpenSharedTexture(h),
        RenderPhase::Releasing { handle, .. } => RenderAction::CloseHandle(handle),
        RenderPhase::Drawing(step) => RenderAction::Draw(step),
        RenderPhase::Stopped(_) => RenderAction::Finish,
    }
}

/// Where a session in `phase` goes when `event` is reported. `missing` is
/// the error for an output view that was not produced. Closing a handle
/// goes on whatever is reported; any other report that does not answer the
/// work asked for leaves the phase as it is.
pub open spec fn next_phase<E>(phase: RenderPhase<E>, event: RenderEvent<E>, missing: Option<E>) -> RenderPhase<E> {
    match phase {
        RenderPhase::Preparing => match event {
            RenderEvent::StepDone => RenderPhase::Waiting,
            RenderEvent::StepFailed(e) => RenderPhase::Stopped(Err(e)),
            _ => phase,
        },
        RenderPhase::Waiting => match event {
            RenderEvent::FrameArrived(h) => RenderPhase::Opening(h),
            RenderEvent::QueueDrained => RenderPhase::Stopped(Ok(())),
            _ => phase,
        },
        RenderPhase::Opening(h) => match event {
            RenderEvent::StepDone => RenderPhase::Releasing { handle: h, failure: None },
            RenderEvent::StepFailed(e) => RenderPhase::Releasing { handle: h, failure: Some(e) },
            _ => phase,
        },
        RenderPhase::Releasing { handle, failure } => match failure {
            Some(e) => RenderPhase::Stopped(Err(e)),
            None => RenderPhase::Drawing(DrawStep::CreateInputView),
        },
        RenderPhase::Drawing(step) => match event {
            RenderEvent::StepDone => match following_step(step) {
                Some(next) => RenderPhase::Drawing(next),
                None => RenderPhase::Waiting,
            },
            RenderEvent::StepFailed(e) => RenderPhase::Stopped(Err(e)),
            RenderEvent::OutputViewMissing => if step == DrawStep::CreateOutputView {
                match missing {
                    Some(m) => RenderPhase::Stopped(Err(m)),
                    None => phase,
                }
            } else {
                phase
            },
            _ => phase,
        },
        RenderPhase::Stopped(_) => phase,
    }
}

/// The handles a session has taken from the queue after one step.
pub open spec fn received_after<E>(phase: RenderPhase<E>, event: RenderEvent<E>, received: Seq<u64>) -> Seq<u64> {
    match (phase, event) {
        (RenderPhase::Waiting, RenderEvent::FrameArrived(h)) => received.push(h),
        _ => received,
    }
}

/// The handles a session has had closed after one step.
pub open spec fn released_after<E>(phase: RenderPhase<E>, released: Seq<u64>) -> Seq<u64> {
    match phase {
        RenderPhase::Releasing { handle, .. } => released.push(handle),
        _ => released,
    }
}

/// A render session: the state of the loop that draws queued frames.
pub struct RenderSession<E> {
    phase: RenderPhase<E>,
    missing_output_view: Option<E>,
    received: Ghost<Seq<u64>>,
    released: Ghost<Seq<u64>>,
}

impl<E> RenderSession<E> {
    /// Where the session stands.
    pub closed spec fn phase(self) -> RenderPhase<E> {
        self.phase
    }

    /// The error kept for an output view that is not produced.
    pub closed spec fn missing_error(self) -> Option<E> {
        self.missing_output_view
    }

    /// The handles taken from the queue so far, in order.
    pub closed spec fn received_handles(self) -> Seq<u64> {
        self.received@
    }

    /// The handles had closed so far, in order.
    pub closed spec fn released_handles(self) -> Seq<u64> {
        self.released@
    }

    /// Every handle taken from the queue has been closed, in the order it
    /// arrived, except the one being opened or closed right now; and the
    /// error for a missing output view is kept until the session stops.
    pub open spec fn well_formed(self) -> bool {
        &&& match self.phase() {
            RenderPhase::Opening(h) => self.received_handles() == self.released_handles().push(h),
            RenderPhase::Releasing { handle, .. } => self.received_handles() == self.released_handles().push(handle),
            _ => self.received_handles() == self.released_handles(),
        }
        &&& !(self.phase() is Stopped) ==> self.missing_error() is Some
    }

    /// A session that has not begun, with the error to report when the
    /// output view is not produced.
    pub fn new(missing_output_view: E) -> (s: RenderSession<E>)
        ensures
            s.well_formed(),
            s.phase() is Preparing,
            s.missing_error() == Some(missing_output_view),
            s.received_handles() == Seq::<u64>::empty(),
            s.released_handles() == Seq::<u64>::empty(),
    {
        RenderSession {
            phase: RenderPhase::Preparing,
            missing_output_view: Some(missing_output_view),
            received: Ghost(Seq::empty()),
            released: Ghost(Seq::empty()),
        }
    }

    /// The outside work the session asks for now.
    pub fn action(&self) -> (a: RenderAction)
        ensures
            a == action_for(self.phase()),
    {
        match &self.phase {
            RenderPhase::Preparing => RenderAction::Prepare,
            RenderPhase::Waiting => RenderAction::TakePendingFrame,
            RenderPhase::Opening(h) => RenderAction::OpenSharedTexture(*h),
            RenderPhase::Releasing { handle, .. } => RenderAction::CloseHandle(*handle),
            RenderPhase::Drawing(step) => RenderAction::Draw(*step),
            RenderPhase::Stopped(_) => RenderAction::Finish,
        }
    }

    /// Takes the report of the work last asked for and moves on.
    pub fn advance(self, event: RenderEvent<E>) -> (next: RenderSession<E>)
        requires
            self.well_formed(),
        ensures
            next.well_formed(),
            next.phase() == next_phase(self.phase(), event, self.missing_error()),
            next.received_handles() == received_after(self.phase(), event, self.received_handles()),
            next.released_handles() == released_after(self.phase(), self.released_handles()),
            !(next.phase() is Stopped) ==> next.missing_error() == self.missing_error(),
    {
        let RenderSession { phase, missing_output_view, received, released } = self;
        let ghost old_phase = phase;
        let ghost old_event = event;
        let ghost new_received = received_after(old_phase, old_event, received@);
        let ghost new_released = released_after(old_phase, released@);
        let next_phase = match phase {
            RenderPhase::Preparing => match event {
                RenderEvent::StepDone => RenderPhase::Waiting,
                RenderEvent::StepFailed(e) => RenderPhase::Stopped(Err(e)),
                _ => RenderPhase::Preparing,
            },
            RenderPhase::Waiting => match event {
                RenderEvent::FrameArrived(h) => RenderPhase::Opening(h),
                RenderEvent::QueueDrained => RenderPhase::Stopped(Ok(())),
                _ => RenderPhase::Waiting,
            },
            RenderPhase::Opening(h) => match event {
                RenderEvent::StepDone => RenderPhase::Releasing { handle: h, failure: None },
                RenderEvent::StepFailed(e) => RenderPhase::Releasing { handle: h, failure: Some(e) },
                _ => RenderPhase::Opening(h),
            },
            RenderPhase::Releasing { handle, failure } => match failure {
                Some(e) => RenderPhase::Stopped(Err(e)),
                None => RenderPhase::Drawing(DrawStep::CreateInputView),
            },
            RenderPhase::Drawing(step) => match event {
                RenderEvent::StepDone => match step {
                    DrawStep::CreateInputView => RenderPhase::Drawing(DrawStep::AcquireBackBuffer),
                    DrawStep::AcquireBackBuffer => RenderPhase::Drawing(DrawStep::CreateOutputView),
                    DrawStep::CreateOutputView => RenderPhase::Drawing(DrawStep::Blit),
                    DrawStep::Blit => RenderPhase::Drawing(DrawStep::Present),
                    DrawStep::Present => RenderPhase::Waiting,
                },
                RenderEvent::StepFailed(e) => RenderPhase::Stopped(Err(e)),
                RenderEvent::OutputViewMissing => match step {
                    DrawStep::CreateOutputView => {
                        return RenderSession {
                            phase: match missing_output_view {
                                Some(m) => RenderPhase::Stopped(Err(m)),
                                None => RenderPhase::Drawing(step),
                            },
                            missing_output_view: None,
                            received: Ghost(new_received),
                            released: Ghost(new_released),
                        };
                    },
                    _ => RenderPhase::Drawing(step),
                },
                _ => RenderPhase::Drawing(step),
            },
            RenderPhase::Stopped(r) => RenderPhase::Stopped(r),
        };
        RenderSession {
            phase: next_phase,
            missing_output_view,
            received: Ghost(new_received),
            released: Ghost(new_released),
        }
    }

    /// The session's result once it has stopped; `None` while it runs.
    pub fn into_result(self) -> (r: Option<Result<(), E>>)
        ensures
            self.phase() matches RenderPhase::Stopped(res) ==> r == Some(res),
            !(self.phase() is Stopped) ==> r is None,
    {
        match self.phase {
            RenderPhase::Stopped(res) => Some(res),
            _ => None,
        }
    }
}

} // verus!
