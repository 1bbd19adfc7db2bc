//! The single-object camera controller: the renderer is created from a
//! window handle, capture is started and stopped on its own, and pending
//! frames are drawn on request. This module holds its error type and every
//! decision it makes; the controller object that owns the operating-system
//! resources follows these decisions.
use vstd::prelude::*;
use crate::types::VideoDimensions;
use crate::capture::{FrameSourceKind, SourceChoice, source_choice_spec, choose_color_source};

verus! {

/// Errors of the single-object controller.
#[derive(Debug)]
pub enum CameraError {
    InitError { msg: String },
    StreamError { msg: String },
}

/// The text that prefixes the message of an initialization error.
pub open spec fn init_prefix() -> Seq<char> {
    seq!['I', 'n', 'i', 't', ' ', 'E', 'r', 'r', 'o', 'r', ':', ' ']
}

/// The text that prefixes the message of a stream error.
pub open spec fn stream_prefix() -> Seq<char> {
    seq!['S', 't', 'r', 'e', 'a', 'm', ' ', 'E', 'r', 'r', 'o', 'r', ':', ' ']
}

impl CameraError {
    /// The message that the error carries.
    pub open spec fn msg_view(&self) -> Seq<char> {
        match self {
            CameraError::InitError { msg } => msg@,
            CameraError::StreamError { msg } => msg@,
        }
    }

    /// How the error reads: a prefix naming its kind, then its message.
    pub open spec fn text(&self) -> Seq<char> {
        match self {
            CameraError::InitError { msg } => init_prefix() + msg@,
            CameraError::StreamError { msg } => stream_prefix() + msg@,
        }
    }

    /// An initialization error with the message `msg`.
    pub fn init(msg: &str) -> (e: CameraError)
        ensures
            e is InitError,
            e.msg_view() == msg@,
    {
        CameraError::InitError { msg: String::from_str(msg) }
    }

    /// An initialization error that carries `msg` as it is, such as the text
    /// of an operating-system error.
    pub fn init_with(msg: String) -> (e: CameraError)
        ensures
            e is InitError,
            e.msg_view() == msg@,
    {
        CameraError::InitError { msg }
    }

    /// A stream error with the message `msg`.
    pub fn stream(msg: &str) -> (e: CameraError)
        ensures
            e is StreamError,
            e.msg_view() == msg@,
    {
        CameraError::StreamError { msg: String::from_str(msg) }
    }

    /// The error as text: its prefix followed by its message.
    pub fn to_text(&self) -> (s: String)
        ensures
            s@ == self.text(),
    {
        let (prefix, msg) = match self {
            CameraError::InitError { msg } => ("Init Error: ", msg),
            CameraError::StreamError { msg } => ("Stream Error: ", msg),
        };
        proof {
            reveal_strlit("Init Error: ");
            reveal_strlit("Stream Error: ");
        }
        String::from_str(prefix).concat(msg.as_str())
    }

    /// The same failure reported one level up: an initialization error
    /// whose message is the whole text of this one.
    pub fn rewrapped(&self) -> (e: CameraError)
        ensures
            e is InitError,
            e.msg_view() == self.text(),
    {
        CameraError::InitError { msg: self.to_text() }
    }
}

/// Which resources the controller holds.
#[derive(Clone, Copy, Debug, PartialEq, Eq, Structural)]
pub struct ControllerStatus {
    /// A renderer is attached to a window.
    pub renderer_ready: bool,
    /// The camera is capturing.
    pub capturing: bool,
}

impl ControllerStatus {
    /// A new controller's status: no renderer, not capturing.
    pub fn idle() -> (s: ControllerStatus)
        ensures
            !s.renderer_ready,
            !s.capturing,
    {
        ControllerStatus { renderer_ready: false, capturing: false }
    }
}

/// The controller's operations. The first three change what it holds;
/// drawing the pending frames only reads the renderer and the capture state.
#[derive(Clone, Copy, Debug, PartialEq, Eq, Structural)]
pub enum Operation {
    CreateRenderer,
    StartCapture,
    StopCapture,
    RenderPendingFrames,
}

/// What an operation does first.
#[derive(Clone, Copy, Debug, PartialEq, Eq, Structural)]
pub enum Plan {
    /// Nothing to do: the operation succeeds at once.
    AlreadyDone,
    /// Do the outside work of the operation.
    Run,
}

/// An operation has nothing to do when what it would bring about already
/// holds: a renderer exists, the camera captures, the camera is stopped.
/// Drawing always runs; `render_start` decides how it begins.
pub open spec fn plan_for(status: ControllerStatus, op: Operation) -> Plan {
    let done = match op {
        Operation::CreateRenderer => status.renderer_ready,
        Operation::StartCapture => status.capturing,
        Operation::StopCapture => !status.capturing,
        Operation::RenderPendingFrames => false,
    };
    if done { Plan::AlreadyDone } else { Plan::Run }
}

/// What the controller holds after it ran the work of `op` from `status`:
/// the new state when the work succeeded, the old one when it failed.
/// Drawing keeps what the controller holds, whatever its outcome.
pub open spec fn settled(status: ControllerStatus, op: Operation, succeeded: bool) -> ControllerStatus {
    if !succeeded {
        status
    } else {
        match op {
            Operation::CreateRenderer => ControllerStatus { renderer_ready: true, ..status },
            Operation::StartCapture => ControllerStatus { capturing: true, ..status },
            Operation::StopCapture => ControllerStatus { capturing: false, ..status },
            Operation::RenderPendingFrames => status,
        }
    }
}

/// What the controller holds after a whole call of `op` from `status`,
/// where `succeeded` says how its outside work went if it ran.
pub open spec fn after_operation(status: ControllerStatus, op: Operation, succeeded: bool) -> ControllerStatus {
    match plan_for(status, op) {
        Plan::AlreadyDone => status,
        Plan::Run => settled(status, op, succeeded),
    }
}

/// Decides what a call of `op` does first.
pub fn plan(status: ControllerStatus, op: Operation) -> (p: Plan)
    ensures
        p == plan_for(status, op),
{
    let done = match op {
        Operation::CreateRenderer => status.renderer_ready,
        Operation::StartCapture => status.capturing,
        Operation::StopCapture => !status.capturing,
        Operation::RenderPendingFrames => false,
    };
    if done { Plan::AlreadyDone } else { Plan::Run }
}

/// What the controller holds once the outside work of `op` ended with
/// `outcome`.
pub fn settle(status: ControllerStatus, op: Operation, outcome: &Result<(), CameraError>) -> (s: ControllerStatus)
    ensures
        s == settled(status, op, outcome is Ok),
{
    match outcome {
        Err(_) => status,
        Ok(()) => match op {
            Operation::CreateRenderer => ControllerStatus { renderer_ready: true, ..status },
            Operation::StartCapture => ControllerStatus { capturing: true, ..status },
            Operation::StopCapture => ControllerStatus { capturing: false, ..status },
            Operation::RenderPendingFrames => status,
        },
    }
}

/// How the capture state could be reached when its size is asked for.
#[derive(Debug)]
pub enum CaptureAccess {
    /// Another call holds the capture state.
    Busy,
    /// The camera is not capturing.
    Absent,
    /// The size was read from the capturing camera, or reading it failed.
    Read(Result<VideoDimensions, CameraError>),
}

/// How the renderer could be reached when pending frames are to be drawn.
#[derive(Clone, Copy, Debug, PartialEq, Eq, Structural)]
pub enum RendererAccess {
    /// Another call holds the renderer.
    Busy,
    /// No renderer was created.
    Absent,
    /// The renderer is free to draw.
    Available,
}

/// How a request to draw pending frames begins.
#[derive(Debug)]
pub enum RenderStart {
    /// The request fails at once with this error.
    Fail(CameraError),
    /// There is no renderer: the request succeeds without drawing.
    Nothing,
    /// Draw the pending frames of a camera of this size.
    Render(VideoDimensions),
}

/// The size of the captured video, or the error of reading it. A busy or
/// absent capture state reads as "Capture not initialized".
pub fn capture_dimensions(access: CaptureAccess) -> (r: Result<VideoDimensions, CameraError>)
    ensures
        access matches CaptureAccess::Read(read) ==> r == read,
        !(access is Read) ==> (r matches Err(e) && e is InitError && e.msg_view() == "Capture not initialized"@),
{
    match access {
        CaptureAccess::Read(read) => read,
        _ => Err(CameraError::init("Capture not initialized")),
    }
}

/// Decides how a request to draw pending frames begins, from the size of
/// the captured video (or the error of reading it) and the renderer's
/// availability. A failure to read the size comes first, as an
/// initialization error whose message is the failure's whole text; then a
/// busy renderer fails with "Nenhuma câmera encontrada"; without a
/// renderer nothing is drawn.
pub fn render_start(dimensions: Result<VideoDimensions, CameraError>, renderer: RendererAccess) -> (s: RenderStart)
    ensures
        dimensions matches Err(e) ==> (s matches RenderStart::Fail(f) && f is InitError && f.msg_view() == e.text()),
        dimensions is Ok && renderer == RendererAccess::Busy ==> (s matches RenderStart::Fail(f)
            && f is InitError && f.msg_view() == "Nenhuma câmera encontrada"@),
        dimensions is Ok && renderer == RendererAccess::Absent ==> s is Nothing,
        dimensions matches Ok(d) ==> (renderer == RendererAccess::Available ==> s == RenderStart::Render(d)),
{
    match dimensions {
        Err(e) => RenderStart::Fail(e.rewrapped()),
        Ok(d) => match renderer {
            RendererAccess::Busy => RenderStart::Fail(CameraError::init("Nenhuma câmera encontrada")),
            RendererAccess::Absent => RenderStart::Nothing,
            RendererAccess::Available => RenderStart::Render(d),
        },
    }
}

/// A device or context the driver asked for, or the initialization error
/// `what` when none came back.
pub fn require<T>(created: Option<T>, what: &str) -> (r: Result<T, CameraError>)
    ensures
        created matches Some(x) ==> r == Ok::<T, CameraError>(x),
        created is None ==> (r matches Err(e) && e is InitError && e.msg_view() == what@),
{
    match created {
        Some(x) => Ok(x),
        None => Err(CameraError::init(what)),
    }
}

/// The capture state met again while capture is being stopped, or the
/// error "Failure to acquire lock" when it has gone meanwhile.
pub fn held_capture<S>(state: Option<S>) -> (r: Result<S, CameraError>)
    ensures
        state matches Some(x) ==> r == Ok::<S, CameraError>(x),
        state is None ==> (r matches Err(e) && e is InitError && e.msg_view() == "Failure to acquire lock"@),
{
    require(state, "Failure to acquire lock")
}

/// The color source to capture from: its position among the sources, the
/// failure met while reading the kinds, or "No camera found".
pub fn color_source_or_error(probes: Vec<Result<FrameSourceKind, CameraError>>) -> (r: Result<usize, CameraError>)
    ensures
        r matches Ok(i) ==> source_choice_spec(probes@, SourceChoice::Chosen(i)),
        r matches Err(e) ==> source_choice_spec(probes@, SourceChoice::Failed(e))
            || (source_choice_spec(probes@, SourceChoice::<CameraError>::NoCamera)
                && e is InitError && e.msg_view() == "No camera found"@),
        source_choice_spec(probes@, SourceChoice::<CameraError>::NoCamera) ==> r is Err,
{
    match choose_color_source(probes) {
        SourceChoice::Chosen(i) => Ok(i),
        SourceChoice::Failed(e) => Err(e),
        SourceChoice::NoCamera => Err(CameraError::init("No camera found")),
    }
}

/// The error for an output view that was asked for and not produced.
pub fn missing_output_view() -> (e: CameraError)
    ensures
        e is InitError,
        e.msg_view() == "Failed to load output view"@,
{
    CameraError::init("Failed to load output view")
}

} // verus!
