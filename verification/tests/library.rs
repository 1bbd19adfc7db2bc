use camera_engine::capture::{
    choose_color_source, color_source_or_error, stops_scan, FrameSourceKind, SourceChoice,
};
use camera_engine::engine::{self, CameraController};
use camera_engine::error::CameraError;
use camera_engine::frame_queue::{
    next_handle, offer_handle, release_after_send, FrameQueue, SendOutcome, FRAME_QUEUE_CAPACITY,
};
use camera_engine::monolithic;
use camera_engine::monolithic::{
    capture_dimensions, held_capture, plan, render_start, settle, CaptureAccess,
    ControllerStatus, Operation, Plan, RenderStart, RendererAccess,
};
use camera_engine::render::{
    device_settings, processor_content, swap_chain_config, view_settings, AdapterChoice,
    AlphaMode, BufferUsage, DrawStep, FeatureLevel, FrameFormat, FrameRate, PixelFormat,
    ProcessorUsage, RenderAction, RenderEvent, RenderSession, Scaling, SwapEffect,
    ViewDimension,
};
use camera_engine::types::{FrameGpuShared, VideoDimensions};

// ---- frame queue -------------------------------------------------------

#[test]
fn new_queue_has_three_slots() {
    let q = FrameQueue::new();
    assert_eq!(FRAME_QUEUE_CAPACITY, 3);
    assert_eq!(q.capacity(), Some(3));
}

#[test]
fn sender_of_queue_reports_same_capacity() {
    let q = FrameQueue::new();
    let s = q.sender();
    assert_eq!(s.capacity(), Some(3));
}

#[test]
fn receiver_of_queue_reports_same_capacity() {
    let q = FrameQueue::new();
    assert_eq!(q.receiver().capacity(), Some(3));
}

#[test]
fn handed_out_ends_belong_to_the_queue() {
    let q = FrameQueue::new();
    let other = FrameQueue::new();
    let s = q.sender();
    let r = q.receiver();
    assert!(q.is_own_sender(&s));
    assert!(q.is_own_receiver(&r));
    assert!(!other.is_own_sender(&s));
    assert!(!other.is_own_receiver(&r));
    // what goes in through the handed-out sender comes out of the handed-out receiver
    assert_eq!(offer_handle(&s, 3), None);
    assert_eq!(next_handle(&r), Some(3));
}

#[test]
fn fourth_handle_is_handed_back_when_nobody_reads() {
    let q = FrameQueue::new();
    let s = q.sender();
    assert_eq!(offer_handle(&s, 10), None);
    assert_eq!(offer_handle(&s, 11), None);
    assert_eq!(q.offer(12), None);
    assert_eq!(offer_handle(&s, 13), Some(13));
    assert_eq!(q.offer(14), Some(14));
}

#[test]
fn handles_come_out_in_order() {
    let q = FrameQueue::new();
    assert_eq!(q.offer(7), None);
    assert_eq!(q.offer(8), None);
    let r = q.receiver();
    assert_eq!(next_handle(&r), Some(7));
    assert_eq!(q.next(), Some(8));
    // a freed slot takes a new handle
    assert_eq!(q.offer(9), None);
    assert_eq!(q.next(), Some(9));
}

#[test]
fn receiver_sees_end_of_queue_once_senders_are_gone() {
    let q = FrameQueue::new();
    let r = q.receiver();
    let s = q.sender();
    assert_eq!(offer_handle(&s, 5), None);
    drop(s);
    drop(q);
    assert_eq!(next_handle(&r), Some(5));
    assert_eq!(next_handle(&r), None);
}

#[test]
fn disconnected_queue_refuses_without_release() {
    let q = FrameQueue::new();
    let s = q.sender();
    drop(q);
    // every receiver is gone: the handle is refused, but not handed back for closing
    assert_eq!(offer_handle(&s, 42), None);
}

#[test]
fn empty_queue_gives_nothing_without_waiting() {
    let q = FrameQueue::new();
    let _keep_sending_end = q.sender();
    assert_eq!(q.next(), None);
    assert_eq!(next_handle(&q.receiver()), None);
    assert_eq!(q.offer(1), None);
    assert_eq!(q.next(), Some(1));
    assert_eq!(q.next(), None);
}

#[test]
fn release_decision_for_each_outcome() {
    assert_eq!(release_after_send(SendOutcome::Queued), None);
    assert_eq!(release_after_send(SendOutcome::Full(9)), Some(9));
    assert_eq!(release_after_send(SendOutcome::Disconnected(9)), None);
}

// ---- source choice -----------------------------------------------------

#[test]
fn first_color_source_is_chosen() {
    let probes: Vec<Result<FrameSourceKind, CameraError>> = vec![
        Ok(FrameSourceKind::Infrared),
        Ok(FrameSourceKind::Depth),
        Ok(FrameSourceKind::Color),
        Ok(FrameSourceKind::Color),
    ];
    assert_eq!(color_source_or_error(probes).unwrap(), 2);
}

#[test]
fn no_color_source_means_no_camera() {
    let probes: Vec<Result<FrameSourceKind, CameraError>> =
        vec![Ok(FrameSourceKind::Audio), Ok(FrameSourceKind::Metadata)];
    match color_source_or_error(probes) {
        Err(CameraError::CommonError { msg }) => assert_eq!(msg, "No camera found"),
        other => panic!("unexpected {:?}", other),
    }
    match color_source_or_error(Vec::new()) {
        Err(e) => assert_eq!(e.to_text(), "Stream Error: No camera found"),
        Ok(i) => panic!("unexpected {}", i),
    }
}

#[test]
fn read_failure_before_color_source_ends_scan() {
    let probes: Vec<Result<FrameSourceKind, CameraError>> = vec![
        Ok(FrameSourceKind::Image),
        Err(CameraError::from_windows(-5, "denied".to_string())),
        Ok(FrameSourceKind::Color),
    ];
    match color_source_or_error(probes) {
        Err(CameraError::Windows { code, msg }) => {
            assert_eq!(code, -5);
            assert_eq!(msg, "denied");
        }
        other => panic!("unexpected {:?}", other),
    }
}

#[test]
fn read_failure_after_color_source_is_not_seen() {
    let probes: Vec<Result<FrameSourceKind, u8>> =
        vec![Ok(FrameSourceKind::Color), Err(1), Err(2)];
    assert!(matches!(choose_color_source(probes), SourceChoice::Chosen(0)));
    let probes: Vec<Result<FrameSourceKind, u8>> = vec![Ok(FrameSourceKind::Custom), Err(1)];
    assert!(matches!(choose_color_source(probes), SourceChoice::Failed(1)));
    let probes: Vec<Result<FrameSourceKind, u8>> = vec![Ok(FrameSourceKind::Custom)];
    assert!(matches!(choose_color_source(probes), SourceChoice::NoCamera));
}

#[test]
fn scan_stops_at_color_or_failure() {
    assert!(stops_scan::<u8>(&Ok(FrameSourceKind::Color)));
    assert!(stops_scan::<u8>(&Err(3)));
    assert!(!stops_scan::<u8>(&Ok(FrameSourceKind::Depth)));
}

#[test]
fn monolithic_no_camera_is_init_error() {
    let probes: Vec<Result<FrameSourceKind, monolithic::CameraError>> =
        vec![Ok(FrameSourceKind::Infrared)];
    match monolithic::color_source_or_error(probes) {
        Err(e) => assert_eq!(e.to_text(), "Init Error: No camera found"),
        Ok(i) => panic!("unexpected {}", i),
    }
}

// ---- errors ------------------------------------------------------------

#[test]
fn engine_error_texts() {
    assert_eq!(
        CameraError::from_windows(-2147024891, "Access is denied.".to_string()).to_text(),
        "Win Error: Access is denied."
    );
    assert_eq!(CameraError::stream("lost").to_text(), "Stream Error: lost");
    assert_eq!(CameraError::common("odd").to_text(), "Stream Error: odd");
}

#[test]
fn monolithic_error_texts() {
    assert_eq!(monolithic::CameraError::init("boom").to_text(), "Init Error: boom");
    assert_eq!(monolithic::CameraError::stream("lost").to_text(), "Stream Error: lost");
    let e = monolithic::CameraError::init_with("E_FAIL".to_string());
    match e.rewrapped() {
        monolithic::CameraError::InitError { msg } => assert_eq!(msg, "Init Error: E_FAIL"),
        other => panic!("unexpected {:?}", other),
    }
}

#[test]
fn missing_resources_are_named() {
    match engine::require::<u8>(None, "Failed to get device") {
        Err(CameraError::CommonError { msg }) => assert_eq!(msg, "Failed to get device"),
        other => panic!("unexpected {:?}", other),
    }
    assert_eq!(engine::require(Some(4u8), "Failed to get device").unwrap(), 4);
    assert_eq!(
        engine::missing_output_view().to_text(),
        "Stream Error: Failed to load output view"
    );
    match monolithic::require::<u8>(None, "Failed to get device context") {
        Err(e) => assert_eq!(e.to_text(), "Init Error: Failed to get device context"),
        Ok(_) => panic!("expected an error"),
    }
    assert_eq!(
        monolithic::missing_output_view().to_text(),
        "Init Error: Failed to load output view"
    );
    match held_capture::<u8>(None) {
        Err(e) => assert_eq!(e.to_text(), "Init Error: Failure to acquire lock"),
        Ok(_) => panic!("expected an error"),
    }
    assert_eq!(held_capture(Some(3u8)).unwrap(), 3);
}

// ---- settings ----------------------------------------------------------

#[test]
fn swap_chain_for_window() {
    let c = swap_chain_config(1280, 720);
    assert_eq!((c.width, c.height), (1280, 720));
    assert_eq!(c.buffer_count, 2);
    assert_eq!((c.sample_count, c.sample_quality), (1, 0));
    assert!(!c.stereo);
    assert_eq!(c.flags, 0);
    assert_eq!(c.format, PixelFormat::B8G8R8A8Unorm);
    assert_eq!(c.usage, BufferUsage::RenderTargetOutput);
    assert_eq!(c.scaling, Scaling::Stretch);
    assert_eq!(c.swap_effect, SwapEffect::FlipDiscard);
    assert_eq!(c.alpha_mode, AlphaMode::Ignore);
}

#[test]
fn processor_content_runs_at_sixty() {
    let c = processor_content(VideoDimensions::new(1920, 1080), 800, 600);
    assert_eq!(c.input, VideoDimensions { width: 1920, height: 1080 });
    assert_eq!(c.output, VideoDimensions { width: 800, height: 600 });
    let sixty = FrameRate { numerator: 60, denominator: 1 };
    assert_eq!(c.input_rate, sixty);
    assert_eq!(c.output_rate, sixty);
    assert_eq!(c.frame_format, FrameFormat::Progressive);
    assert_eq!(c.usage, ProcessorUsage::PlaybackNormal);
}

#[test]
fn device_and_view_settings() {
    let d = device_settings(false);
    assert!(d.hardware_driver && d.bgra_support && !d.debug_layer);
    assert_eq!(d.adapter, AdapterChoice::Default);
    assert_eq!(d.preferred_level, FeatureLevel::Level11_1);
    assert_eq!(d.fallback_level, FeatureLevel::Level11_0);
    assert!(device_settings(true).debug_layer);
    let v = view_settings();
    assert_eq!(v.input_dimension, ViewDimension::Texture2D);
    assert_eq!(v.output_dimension, ViewDimension::Texture2D);
    assert_eq!((v.input_four_cc, v.input_mip_slice, v.input_array_slice), (0, 0, 0));
    assert_eq!((v.output_mip_slice, v.back_buffer_index), (0, 0));
    assert_eq!((v.rate_conversion_index, v.output_frame), (0, 0));
    assert_eq!((v.sync_interval, v.present_flags), (1, 0));
}

#[test]
fn shared_frame_carries_its_size() {
    let f = FrameGpuShared::new(77, 640, 480);
    assert_eq!(f.share_handle, 77);
    assert_eq!(f.dimensions(), VideoDimensions::new(640, 480));
}

// ---- render session ----------------------------------------------------

fn drive(mut s: RenderSession<u32>, events: Vec<RenderEvent<u32>>) -> (RenderSession<u32>, Vec<RenderAction>) {
    let mut actions = vec![s.action()];
    for e in events {
        s = s.advance(e);
        actions.push(s.action());
    }
    (s, actions)
}

#[test]
fn session_draws_a_frame_and_ends_when_queue_closes() {
    let s = RenderSession::new(99u32);
    let (s, actions) = drive(
        s,
        vec![
            RenderEvent::StepDone,
            RenderEvent::FrameArrived(31),
            RenderEvent::StepDone,
            RenderEvent::StepDone,
            RenderEvent::StepDone,
            RenderEvent::StepDone,
            RenderEvent::StepDone,
            RenderEvent::StepDone,
            RenderEvent::StepDone,
            RenderEvent::QueueDrained,
        ],
    );
    assert_eq!(
        actions,
        vec![
            RenderAction::Prepare,
            RenderAction::TakePendingFrame,
            RenderAction::OpenSharedTexture(31),
            RenderAction::CloseHandle(31),
            RenderAction::Draw(DrawStep::CreateInputView),
            RenderAction::Draw(DrawStep::AcquireBackBuffer),
            RenderAction::Draw(DrawStep::CreateOutputView),
            RenderAction::Draw(DrawStep::Blit),
            RenderAction::Draw(DrawStep::Present),
            RenderAction::TakePendingFrame,
            RenderAction::Finish,
        ]
    );
    assert_eq!(s.into_result(), Some(Ok(())));
}

#[test]
fn session_drains_the_pending_frames_then_returns() {
    let q = FrameQueue::new();
    assert_eq!(q.offer(21), None);
    assert_eq!(q.offer(22), None);
    let mut s = RenderSession::new(0u32);
    let mut opened = Vec::new();
    let mut closed = Vec::new();
    let mut steps = 0;
    loop {
        steps += 1;
        assert!(steps < 100, "the session must end once the queue is drained");
        let event = match s.action() {
            RenderAction::Prepare => RenderEvent::StepDone,
            RenderAction::TakePendingFrame => match q.next() {
                Some(h) => RenderEvent::FrameArrived(h),
                None => RenderEvent::QueueDrained,
            },
            RenderAction::OpenSharedTexture(h) => {
                opened.push(h);
                RenderEvent::StepDone
            }
            RenderAction::CloseHandle(h) => {
                closed.push(h);
                RenderEvent::StepDone
            }
            RenderAction::Draw(_) => RenderEvent::StepDone,
            RenderAction::Finish => break,
        };
        s = s.advance(event);
    }
    assert_eq!(opened, vec![21, 22]);
    assert_eq!(closed, vec![21, 22]);
    assert_eq!(s.into_result(), Some(Ok(())));
}

#[test]
fn failed_open_closes_handle_then_fails() {
    let (s, actions) = drive(
        RenderSession::new(99u32),
        vec![
            RenderEvent::StepDone,
            RenderEvent::FrameArrived(8),
            RenderEvent::StepFailed(5),
            RenderEvent::StepFailed(6),
        ],
    );
    assert_eq!(actions[2], RenderAction::OpenSharedTexture(8));
    assert_eq!(actions[3], RenderAction::CloseHandle(8));
    assert_eq!(actions[4], RenderAction::Finish);
    assert_eq!(s.into_result(), Some(Err(5)));
}

#[test]
fn missing_output_view_stops_with_kept_error() {
    let (s, actions) = drive(
        RenderSession::new(99u32),
        vec![
            RenderEvent::StepDone,
            RenderEvent::FrameArrived(8),
            RenderEvent::StepDone,
            RenderEvent::StepDone,
            RenderEvent::StepDone,
            RenderEvent::StepDone,
            RenderEvent::OutputViewMissing,
        ],
    );
    assert_eq!(actions[6], RenderAction::Draw(DrawStep::CreateOutputView));
    assert_eq!(actions[7], RenderAction::Finish);
    assert_eq!(s.into_result(), Some(Err(99)));
}

#[test]
fn failed_preparation_and_late_failures() {
    let (s, _) = drive(RenderSession::new(99u32), vec![RenderEvent::StepFailed(1)]);
    assert_eq!(s.into_result(), Some(Err(1)));
    let (s, _) = drive(
        RenderSession::new(99u32),
        vec![
            RenderEvent::StepDone,
            RenderEvent::FrameArrived(8),
            RenderEvent::StepDone,
            RenderEvent::StepDone,
            RenderEvent::StepDone,
            RenderEvent::StepFailed(4),
        ],
    );
    assert_eq!(s.into_result(), Some(Err(4)));
}

#[test]
fn unrelated_reports_leave_the_session_in_place() {
    let (s, actions) = drive(
        RenderSession::new(99u32),
        vec![RenderEvent::FrameArrived(3), RenderEvent::OutputViewMissing, RenderEvent::QueueDrained],
    );
    assert_eq!(actions, vec![RenderAction::Prepare; 4]);
    assert_eq!(s.into_result(), None);
}

// ---- controller lifecycles ---------------------------------------------

#[test]
fn operations_plan_and_settle() {
    let idle = ControllerStatus::idle();
    assert_eq!(idle, ControllerStatus { renderer_ready: false, capturing: false });
    assert_eq!(plan(idle, Operation::CreateRenderer), Plan::Run);
    assert_eq!(plan(idle, Operation::StartCapture), Plan::Run);
    assert_eq!(plan(idle, Operation::StopCapture), Plan::AlreadyDone);
    let with_renderer = settle(idle, Operation::CreateRenderer, &Ok(()));
    assert_eq!(with_renderer, ControllerStatus { renderer_ready: true, capturing: false });
    assert_eq!(plan(with_renderer, Operation::CreateRenderer), Plan::AlreadyDone);
    let capturing = settle(with_renderer, Operation::StartCapture, &Ok(()));
    assert_eq!(capturing, ControllerStatus { renderer_ready: true, capturing: true });
    assert_eq!(plan(capturing, Operation::StartCapture), Plan::AlreadyDone);
    assert_eq!(plan(capturing, Operation::StopCapture), Plan::Run);
    let failed = settle(capturing, Operation::StopCapture, &Err(monolithic::CameraError::init("x")));
    assert_eq!(failed, capturing);
    let stopped = settle(capturing, Operation::StopCapture, &Ok(()));
    assert_eq!(stopped, with_renderer);
    assert_eq!(plan(capturing, Operation::RenderPendingFrames), Plan::Run);
    assert_eq!(settle(capturing, Operation::RenderPendingFrames, &Ok(())), capturing);
    assert_eq!(
        settle(idle, Operation::RenderPendingFrames, &Err(monolithic::CameraError::init("x"))),
        idle
    );
}

#[test]
fn render_requires_capture_and_free_renderer() {
    let d = VideoDimensions::new(640, 480);
    match render_start(capture_dimensions(CaptureAccess::Absent), RendererAccess::Available) {
        RenderStart::Fail(monolithic::CameraError::InitError { msg }) => {
            assert_eq!(msg, "Init Error: Capture not initialized")
        }
        other => panic!("unexpected {:?}", other),
    }
    match render_start(capture_dimensions(CaptureAccess::Busy), RendererAccess::Busy) {
        RenderStart::Fail(e) => assert_eq!(e.to_text(), "Init Error: Init Error: Capture not initialized"),
        other => panic!("unexpected {:?}", other),
    }
    match render_start(Ok(d), RendererAccess::Busy) {
        RenderStart::Fail(e) => assert_eq!(e.to_text(), "Init Error: Nenhuma câmera encontrada"),
        other => panic!("unexpected {:?}", other),
    }
    assert!(matches!(render_start(Ok(d), RendererAccess::Absent), RenderStart::Nothing));
    match render_start(capture_dimensions(CaptureAccess::Read(Ok(d))), RendererAccess::Available) {
        RenderStart::Render(got) => assert_eq!(got, d),
        other => panic!("unexpected {:?}", other),
    }
}

#[test]
fn engine_controller_start_and_stop() {
    let mut c: CameraController<&str, u32> = CameraController::new();
    assert_eq!(c.frames().capacity(), Some(3));
    assert_eq!(c.take_capture(), None);
    c.install("capture", 7);
    assert_eq!(c.take_capture(), Some("capture"));
    assert_eq!(c.take_capture(), None);
    assert_eq!(c.take_renderer(), Some(7));
    assert_eq!(c.take_renderer(), None);
}
