use std::sync::atomic::{AtomicU64, Ordering};
use std::sync::Arc;

use vmb::{
    Camera, CameraHandle, DiscoveryEvent, FakeCall, FakeVmbRuntime, Frame, FrameCallbackId,
    FrameSlotId, Method, PixelFormat, VmbError, VmbRuntime,
};

type OnFrame = Box<dyn for<'a> Fn(&Frame<'a>) + Send + Sync>;
type OnEvent = Box<dyn Fn(DiscoveryEvent) + Send + Sync>;
type Fake = FakeVmbRuntime<OnFrame, OnEvent>;

fn ignore() -> OnFrame {
    Box::new(|_| {})
}

fn sdk(code: i32) -> VmbError {
    VmbError::Sdk { code }
}

fn command(h: CameraHandle, name: &str) -> FakeCall {
    FakeCall::RunFeatureCommand(h, name.to_string())
}

fn teardown(h: CameraHandle, cb: u64) -> Vec<FakeCall> {
    vec![
        FakeCall::CaptureEnd(h),
        FakeCall::CaptureQueueFlush(h),
        FakeCall::FrameRevokeAll(h),
        FakeCall::UninstallFrameCallback(FrameCallbackId(cb)),
    ]
}

fn full_start(h: CameraHandle) -> Vec<FakeCall> {
    vec![
        FakeCall::PayloadSize(h),
        FakeCall::InstallFrameCallback(FrameCallbackId(2)),
        FakeCall::AnnounceFrame(h, 1024),
        FakeCall::AnnounceFrame(h, 1024),
        FakeCall::CaptureStart(h),
        FakeCall::QueueFrame(h, FrameSlotId(3), FrameCallbackId(2)),
        FakeCall::QueueFrame(h, FrameSlotId(4), FrameCallbackId(2)),
        command(h, "AcquisitionStart"),
    ]
}

/// The calls after the one that opened the camera.
fn since_open(fake: &Fake) -> Vec<FakeCall> {
    fake.calls()[1..].to_vec()
}

#[test]
fn open_keeps_the_id() {
    let mut fake = Fake::new();
    let camera = Camera::open(&mut fake, "cam-a").unwrap();
    assert_eq!(camera.id(), "cam-a");
    assert_eq!(fake.handle_for("cam-a"), Some(camera.handle()));
    assert!(!camera.capture_running());
    assert_eq!(fake.calls(), vec![FakeCall::OpenCamera("cam-a".to_string())]);
}

#[test]
fn open_hands_the_error_on() {
    let mut fake = Fake::new();
    fake.fail_next(Method::OpenCamera, sdk(-4));
    assert_eq!(Camera::open(&mut fake, "cam-a").err(), Some(sdk(-4)));
    assert_eq!(fake.handle_for("cam-a"), None);
}

#[test]
fn features_go_through_to_the_runtime() {
    let mut fake = Fake::new();
    let camera = Camera::open(&mut fake, "cam-a").unwrap();
    let h = camera.handle();
    assert_eq!(camera.get_feature_int(&mut fake, "Width"), Ok(0));
    assert_eq!(camera.get_feature_float(&mut fake, "Gain"), Ok(0));
    let bits = 2.5f64.to_bits();
    assert_eq!(camera.set_feature_float(&mut fake, "Gain", bits), Ok(()));
    assert_eq!(camera.set_feature_enum(&mut fake, "Mode", "On"), Ok(()));
    fake.fail_next(Method::LoadSettings, sdk(-9));
    assert_eq!(camera.load_settings(&mut fake, "night.xml"), Err(sdk(-9)));
    assert_eq!(
        since_open(&fake),
        vec![
            FakeCall::GetFeatureInt(h, "Width".to_string()),
            FakeCall::GetFeatureFloat(h, "Gain".to_string()),
            FakeCall::SetFeatureFloat(h, "Gain".to_string(), bits),
            FakeCall::SetFeatureEnum(h, "Mode".to_string(), "On".to_string()),
            FakeCall::LoadSettings(h, "night.xml".to_string()),
        ]
    );
}

#[test]
fn start_announces_starts_queues_and_acquires() {
    let mut fake = Fake::new();
    let mut camera = Camera::open(&mut fake, "cam-a").unwrap();
    assert_eq!(camera.start_capture(&mut fake, 2, ignore()), Ok(()));
    assert!(camera.capture_running());
    assert!(fake.is_capturing(camera.handle()));
    assert_eq!(since_open(&fake), full_start(camera.handle()));
}

#[test]
fn start_without_buffers_queues_nothing() {
    let mut fake = Fake::new();
    let mut camera = Camera::open(&mut fake, "cam-a").unwrap();
    let h = camera.handle();
    assert_eq!(camera.start_capture(&mut fake, 0, ignore()), Ok(()));
    assert!(!fake.deliver_frame(h, &[], 0, 0, PixelFormat(0)));
    assert_eq!(
        since_open(&fake),
        vec![
            FakeCall::PayloadSize(h),
            FakeCall::InstallFrameCallback(FrameCallbackId(2)),
            FakeCall::CaptureStart(h),
            command(h, "AcquisitionStart"),
        ]
    );
}

#[test]
fn start_announces_buffers_of_the_payload_size() {
    let mut fake = Fake::new();
    fake.set_payload_size(640);
    let mut camera = Camera::open(&mut fake, "cam-a").unwrap();
    assert_eq!(camera.start_capture(&mut fake, 1, ignore()), Ok(()));
    assert!(fake
        .calls()
        .contains(&FakeCall::AnnounceFrame(camera.handle(), 640)));
}

#[test]
fn running_capture_is_not_started_again() {
    let mut fake = Fake::new();
    let mut camera = Camera::open(&mut fake, "cam-a").unwrap();
    assert_eq!(camera.start_capture(&mut fake, 2, ignore()), Ok(()));
    let calls = fake.call_count();
    assert_eq!(
        camera.start_capture(&mut fake, 2, ignore()),
        Err(VmbError::CaptureAlreadyRunning)
    );
    assert!(camera.capture_running());
    assert_eq!(fake.call_count(), calls);
}

#[test]
fn failed_payload_query_claims_nothing() {
    let mut fake = Fake::new();
    let mut camera = Camera::open(&mut fake, "cam-a").unwrap();
    fake.fail_next(Method::PayloadSize, sdk(-5));
    assert_eq!(camera.start_capture(&mut fake, 2, ignore()), Err(sdk(-5)));
    assert!(!camera.capture_running());
    assert_eq!(since_open(&fake), vec![FakeCall::PayloadSize(camera.handle())]);
}

#[test]
fn failed_start_is_unwound_at_every_step() {
    let steps = [
        (Method::AnnounceFrame, 0, 3),
        (Method::AnnounceFrame, 1, 4),
        (Method::CaptureStart, 0, 5),
        (Method::QueueFrame, 0, 6),
        (Method::QueueFrame, 1, 7),
        (Method::RunFeatureCommand, 0, 8),
    ];
    for (method, skip, made) in steps {
        let mut fake = Fake::new();
        let mut camera = Camera::open(&mut fake, "cam-a").unwrap();
        let h = camera.handle();
        fake.fail_nth(method, skip, sdk(-6));
        assert_eq!(camera.start_capture(&mut fake, 2, ignore()), Err(sdk(-6)));
        assert!(!camera.capture_running());
        assert!(!fake.is_capturing(h));
        assert!(fake.frame_callback_for(h).is_none());
        let mut expected = full_start(h)[..made].to_vec();
        expected.extend(teardown(h, 2));
        assert_eq!(since_open(&fake), expected);
        // The camera can be started afterwards.
        assert_eq!(camera.start_capture(&mut fake, 2, ignore()), Ok(()));
    }
}

#[test]
fn stop_tears_the_capture_down() {
    let mut fake = Fake::new();
    let mut camera = Camera::open(&mut fake, "cam-a").unwrap();
    let h = camera.handle();
    assert_eq!(camera.start_capture(&mut fake, 2, ignore()), Ok(()));
    assert_eq!(camera.stop_capture(&mut fake), Ok(()));
    assert!(!camera.capture_running());
    assert!(!fake.is_capturing(h));
    let mut expected = full_start(h);
    expected.push(command(h, "AcquisitionStop"));
    expected.extend(teardown(h, 2));
    assert_eq!(since_open(&fake), expected);
}

#[test]
fn stop_swallows_a_failed_command() {
    let mut fake = Fake::new();
    let mut camera = Camera::open(&mut fake, "cam-a").unwrap();
    let h = camera.handle();
    assert_eq!(camera.start_capture(&mut fake, 1, ignore()), Ok(()));
    fake.fail_next(Method::RunFeatureCommand, sdk(-8));
    assert_eq!(camera.stop_capture(&mut fake), Ok(()));
    assert!(!camera.capture_running());
    assert!(!fake.is_capturing(h));
    assert_eq!(
        fake.calls().last(),
        Some(&FakeCall::UninstallFrameCallback(FrameCallbackId(2)))
    );
}

#[test]
fn stop_without_a_capture_does_nothing() {
    let mut fake = Fake::new();
    let mut camera = Camera::open(&mut fake, "cam-a").unwrap();
    assert_eq!(camera.stop_capture(&mut fake), Ok(()));
    assert_eq!(fake.call_count(), 1);
}

#[test]
fn close_ends_a_running_capture_first() {
    let mut fake = Fake::new();
    let mut camera = Camera::open(&mut fake, "cam-a").unwrap();
    let h = camera.handle();
    assert_eq!(camera.start_capture(&mut fake, 2, ignore()), Ok(()));
    camera.close(&mut fake);
    let mut expected = full_start(h);
    expected.push(command(h, "AcquisitionStop"));
    expected.extend(teardown(h, 2));
    expected.push(FakeCall::CloseCamera(h));
    assert_eq!(since_open(&fake), expected);
    assert_eq!(fake.handle_for("cam-a"), None);
}

#[test]
fn close_of_an_idle_camera_only_closes_it() {
    let mut fake = Fake::new();
    let camera = Camera::open(&mut fake, "cam-a").unwrap();
    let h = camera.handle();
    camera.close(&mut fake);
    assert_eq!(since_open(&fake), vec![FakeCall::CloseCamera(h)]);
}

#[test]
fn frames_reach_the_closure_until_the_stop() {
    let mut fake = Fake::new();
    let mut camera = Camera::open(&mut fake, "cam-a").unwrap();
    let h = camera.handle();
    let sum = Arc::new(AtomicU64::new(0));
    let s = sum.clone();
    let on_frame: OnFrame = Box::new(move |frame| {
        s.fetch_add(frame.bytes.iter().map(|b| *b as u64).sum(), Ordering::SeqCst);
    });
    assert_eq!(camera.start_capture(&mut fake, 2, on_frame), Ok(()));
    assert!(fake.deliver_frame(h, &[1, 2, 3], 3, 1, PixelFormat(0)));
    assert!(fake.deliver_frame(h, &[10], 1, 1, PixelFormat(0)));
    assert_eq!(sum.load(Ordering::SeqCst), 16);
    assert_eq!(camera.stop_capture(&mut fake), Ok(()));
    assert!(fake.frame_callback_for(h).is_none());
    assert_eq!(camera.get_feature_int(&mut fake, "Width"), Ok(0));
    assert!(fake.frame_callback_for(h).is_none());
    assert_eq!(camera.start_capture(&mut fake, 1, ignore()), Ok(()));
    assert!(fake.frame_callback_for(h).is_some());
}

#[test]
fn frames_reach_the_closure_while_other_calls_are_made() {
    let mut fake = Fake::new();
    let mut camera = Camera::open(&mut fake, "cam-a").unwrap();
    let h = camera.handle();
    let count = Arc::new(AtomicU64::new(0));
    let c = count.clone();
    let on_frame: OnFrame = Box::new(move |_| {
        c.fetch_add(1, Ordering::SeqCst);
    });
    assert_eq!(camera.start_capture(&mut fake, 2, on_frame), Ok(()));
    let mut other = Camera::open(&mut fake, "cam-b").unwrap();
    assert_eq!(other.start_capture(&mut fake, 1, ignore()), Ok(()));
    assert_eq!(camera.get_feature_int(&mut fake, "Width"), Ok(0));
    assert_eq!(other.stop_capture(&mut fake), Ok(()));
    assert!(fake.deliver_frame(h, &[], 0, 0, PixelFormat(0)));
    other.close(&mut fake);
    assert!(fake.deliver_frame(h, &[], 0, 0, PixelFormat(0)));
    assert_eq!(count.load(Ordering::SeqCst), 2);
    fake.capture_queue_flush(h);
    assert!(!fake.deliver_frame(h, &[], 0, 0, PixelFormat(0)));
    assert_eq!(count.load(Ordering::SeqCst), 2);
}

#[test]
fn stop_leaves_what_was_claimed_in_between_elsewhere() {
    let mut fake = Fake::new();
    let mut a = Camera::open(&mut fake, "cam-a").unwrap();
    assert_eq!(a.start_capture(&mut fake, 1, ignore()), Ok(()));
    let mut b = Camera::open(&mut fake, "cam-b").unwrap();
    assert_eq!(b.start_capture(&mut fake, 1, ignore()), Ok(()));
    assert_eq!(a.stop_capture(&mut fake), Ok(()));
    assert!(!fake.is_capturing(a.handle()));
    assert!(fake.is_capturing(b.handle()));
    assert!(fake.frame_callback_for(a.handle()).is_none());
    assert!(fake.frame_callback_for(b.handle()).is_some());
}

#[test]
fn captures_of_two_cameras_do_not_disturb_each_other() {
    let mut fake = Fake::new();
    let mut a = Camera::open(&mut fake, "cam-a").unwrap();
    let mut b = Camera::open(&mut fake, "cam-b").unwrap();
    assert_eq!(a.start_capture(&mut fake, 1, ignore()), Ok(()));
    assert_eq!(b.start_capture(&mut fake, 1, ignore()), Ok(()));
    assert_eq!(a.stop_capture(&mut fake), Ok(()));
    assert!(!fake.is_capturing(a.handle()));
    assert!(fake.deliver_frame(b.handle(), &[], 0, 0, PixelFormat(0)));
    fake.fail_next(Method::CaptureStart, sdk(-1));
    assert_eq!(a.start_capture(&mut fake, 1, ignore()), Err(sdk(-1)));
    assert!(fake.deliver_frame(b.handle(), &[], 0, 0, PixelFormat(0)));
}

#[test]
fn started_twice_a_capture_gets_fresh_identifiers() {
    let mut fake = Fake::new();
    let mut camera = Camera::open(&mut fake, "cam-a").unwrap();
    let h = camera.handle();
    assert_eq!(camera.start_capture(&mut fake, 1, ignore()), Ok(()));
    assert_eq!(camera.stop_capture(&mut fake), Ok(()));
    assert_eq!(camera.start_capture(&mut fake, 1, ignore()), Ok(()));
    let calls = fake.calls();
    assert!(calls.contains(&FakeCall::QueueFrame(h, FrameSlotId(3), FrameCallbackId(2))));
    assert!(calls.contains(&FakeCall::QueueFrame(h, FrameSlotId(5), FrameCallbackId(4))));
}

#[test]
fn camera_does_not_need_a_started_runtime_to_be_closed() {
    let mut fake = Fake::new();
    assert_eq!(fake.startup(), Ok(()));
    let camera = Camera::open(&mut fake, "cam-a").unwrap();
    fake.shutdown();
    camera.close(&mut fake);
    assert_eq!(fake.handle_for("cam-a"), None);
}
