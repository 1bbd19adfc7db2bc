//! Properties that span several operations of the library.
use vstd::prelude::*;
use crate::frame_queue::{SendOutcome, handle_to_release};
use crate::capture::{FrameSourceKind, SourceChoice, source_choice_spec, ends_scan};
use crate::render::{
    RenderPhase, RenderEvent, RenderAction, RenderSession, DrawStep, next_phase, action_for,
};
use crate::monolithic::{ControllerStatus, Operation, Plan, plan_for, after_operation};
use crate::engine::{Holding, capture_taken, renderer_taken, fully_held};

verus! {

/// A handle offered to the frame queue comes back to be closed exactly when
/// the queue refused it for being full.
pub proof fn full_queue_alone_hands_back(outcome: SendOutcome)
    ensures
        handle_to_release(outcome) is Some <==> outcome is Full,
        outcome matches SendOutcome::Full(h) ==> handle_to_release(outcome) == Some(h),
{
}

/// The scan of the frame sources has one outcome: whatever choice meets the
/// scan's description for the same reads is the same choice.
pub proof fn source_choice_is_unique<E>(
    probes: Seq<Result<FrameSourceKind, E>>,
    a: SourceChoice<E>,
    b: SourceChoice<E>,
)
    requires
        source_choice_spec(probes, a),
        source_choice_spec(probes, b),
    ensures
        a == b,
{
    let ia: int = match a {
        SourceChoice::Chosen(i) => i as int,
        SourceChoice::Failed(e) => choose|i: int|
            0 <= i < probes.len() && #[trigger] probes[i] == Err::<FrameSourceKind, E>(e)
                && crate::capture::passed_over(probes, i),
        SourceChoice::NoCamera => probes.len() as int,
    };
    let ib: int = match b {
        SourceChoice::Chosen(i) => i as int,
        SourceChoice::Failed(e) => choose|i: int|
            0 <= i < probes.len() && #[trigger] probes[i] == Err::<FrameSourceKind, E>(e)
                && crate::capture::passed_over(probes, i),
        SourceChoice::NoCamera => probes.len() as int,
    };
    assert(ia < probes.len() ==> ends_scan(probes[ia]));
    assert(ib < probes.len() ==> ends_scan(probes[ib]));
    if ia < ib {
        assert(!ends_scan(probes[ia]));
    } else if ib < ia {
        assert(!ends_scan(probes[ib]));
    }
    assert(ia == ib);
}

/// A render session that has stopped, whatever the reason, has closed every
/// handle it took from the queue, once each and in the order they came.
pub proof fn stopped_session_closed_every_handle<E>(s: RenderSession<E>)
    requires
        s.well_formed(),
        s.phase() is Stopped,
    ensures
        s.released_handles() == s.received_handles(),
{
}

/// Drawing never starts before the frame's handle is closed: while a
/// session draws, every handle it took has been closed.
pub proof fn handle_closed_before_drawing<E>(s: RenderSession<E>)
    requires
        s.well_formed(),
        s.phase() is Drawing,
    ensures
        s.released_handles() == s.received_handles(),
{
}

/// The first failure ends the session with that failure: a failed setup,
/// and a failure of any drawing step (the input view, the back buffer, the
/// output view, the blit or the present), stops the session at once with
/// the error reported, and the session then asks for nothing more and
/// accepts no further report.
pub proof fn any_drawing_failure_stops_session<E>(step: DrawStep, e: E, later: RenderEvent<E>, missing: Option<E>)
    ensures
        next_phase(RenderPhase::Drawing(step), RenderEvent::StepFailed(e), missing)
            == RenderPhase::<E>::Stopped(Err(e)),
        next_phase(RenderPhase::<E>::Preparing, RenderEvent::StepFailed(e), missing)
            == RenderPhase::<E>::Stopped(Err(e)),
        action_for(RenderPhase::<E>::Stopped(Err(e))) == RenderAction::Finish,
        next_phase(RenderPhase::<E>::Stopped(Err(e)), later, missing) == RenderPhase::<E>::Stopped(Err(e)),
{
}

/// When the shared texture behind handle `h` cannot be opened, the session
/// first asks to close `h` and then stops with the error of the open,
/// whatever the close reports.
pub proof fn failed_open_closes_then_stops<E>(h: u64, e: E, closing: RenderEvent<E>, missing: Option<E>)
    ensures
        ({
            let closing_phase = next_phase(RenderPhase::Opening(h), RenderEvent::StepFailed(e), missing);
            &&& action_for(closing_phase) == RenderAction::CloseHandle(h)
            &&& next_phase(closing_phase, closing, missing) == RenderPhase::<E>::Stopped(Err(e))
        }),
{
}

/// A frame that opens and draws without failure closes its handle first
/// and leaves the session waiting for the next frame.
pub proof fn frame_round_trip<E>(h: u64, closing: RenderEvent<E>, missing: Option<E>)
    ensures
        ({
            let opening = next_phase(RenderPhase::Waiting, RenderEvent::FrameArrived(h), missing);
            let closing_phase = next_phase(opening, RenderEvent::<E>::StepDone, missing);
            let drawing = next_phase(closing_phase, closing, missing);
            let s1 = next_phase(drawing, RenderEvent::<E>::StepDone, missing);
            let s2 = next_phase(s1, RenderEvent::<E>::StepDone, missing);
            let s3 = next_phase(s2, RenderEvent::<E>::StepDone, missing);
            let s4 = next_phase(s3, RenderEvent::<E>::StepDone, missing);
            let s5 = next_phase(s4, RenderEvent::<E>::StepDone, missing);
            &&& action_for(opening) == RenderAction::OpenSharedTexture(h)
            &&& action_for(closing_phase) == RenderAction::CloseHandle(h)
            &&& drawing == RenderPhase::<E>::Drawing(DrawStep::CreateInputView)
            &&& action_for(s4) == RenderAction::Draw(DrawStep::Present)
            &&& s5 == RenderPhase::<E>::Waiting
        }),
{
}

/// Once no handle is pending, the session ends without error: it draws the
/// frames already queued and does not wait for more.
pub proof fn drained_queue_ends_session<E>(missing: Option<E>)
    ensures
        next_phase(RenderPhase::<E>::Waiting, RenderEvent::QueueDrained, missing)
            == RenderPhase::<E>::Stopped(Ok(())),
{
}

/// Each operation looks only at its own resource: creating the renderer
/// is skipped exactly when a renderer exists, whether or not the camera
/// captures; starting capture is skipped exactly when the camera captures,
/// and stopping it exactly when it does not, whether or not a renderer
/// exists; drawing is never skipped.
pub proof fn plans_look_at_their_own_resource(status: ControllerStatus)
    ensures
        (plan_for(status, Operation::CreateRenderer) == Plan::AlreadyDone) <==> status.renderer_ready,
        (plan_for(status, Operation::StartCapture) == Plan::AlreadyDone) <==> status.capturing,
        (plan_for(status, Operation::StopCapture) == Plan::AlreadyDone) <==> !status.capturing,
        plan_for(status, Operation::RenderPendingFrames) == Plan::Run,
{
}

/// Creating the renderer, starting capture and stopping capture are each
/// idempotent: once one has succeeded, calling it again does nothing and
/// succeeds.
pub proof fn operations_are_idempotent(status: ControllerStatus, op: Operation, second: bool)
    requires
        op != Operation::RenderPendingFrames,
    ensures
        ({
            let once = after_operation(status, op, true);
            &&& plan_for(once, op) == Plan::AlreadyDone
            &&& after_operation(once, op, second) == once
        }),
{
}

/// An operation whose outside work fails leaves the controller holding what
/// it held.
pub proof fn failed_operation_changes_nothing(status: ControllerStatus, op: Operation)
    ensures
        after_operation(status, op, false) == status,
{
}

/// Capture operations never touch the renderer, and creating the renderer
/// never touches capture.
pub proof fn operations_touch_their_own_resource(status: ControllerStatus, op: Operation, succeeded: bool)
    ensures
        op != Operation::CreateRenderer ==> after_operation(status, op, succeeded).renderer_ready == status.renderer_ready,
        op == Operation::CreateRenderer ==> after_operation(status, op, succeeded).capturing == status.capturing,
{
}

/// Drawing the pending frames leaves the controller holding what it held,
/// whether the drawing succeeds or fails.
pub proof fn rendering_keeps_holdings(status: ControllerStatus, succeeded: bool)
    ensures
        after_operation(status, Operation::RenderPendingFrames, succeeded) == status,
        plan_for(status, Operation::RenderPendingFrames) == Plan::Run,
{
}

/// Starting capture and then stopping it, both successfully, leaves the
/// controller not capturing and its renderer as it was.
pub proof fn start_then_stop_capture(status: ControllerStatus)
    ensures
        ({
            let stopped = after_operation(after_operation(status, Operation::StartCapture, true), Operation::StopCapture, true);
            &&& !stopped.capturing
            &&& stopped.renderer_ready == status.renderer_ready
        }),
{
}

/// Stopping the engine's controller leaves it holding nothing, and a failed
/// stop of the capture still leaves it without a capture.
pub proof fn stop_releases_everything(h: Holding)
    ensures
        !capture_taken(h).capture,
        capture_taken(h).renderer == h.renderer,
        renderer_taken(capture_taken(h)) == (Holding { capture: false, renderer: false }),
        renderer_taken(capture_taken(fully_held())) == (Holding { capture: false, renderer: false }),
{
}

} // verus!
