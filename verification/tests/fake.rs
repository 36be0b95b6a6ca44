use std::sync::atomic::{AtomicUsize, Ordering};
use std::sync::{Arc, Mutex};

use vmb::failures::FailurePlan;
use vmb::ids::IdCounter;
use vmb::{
    CameraHandle, CameraInfo, DiscoveryCallback, DiscoveryEvent, FakeCall, FakeVmbRuntime, Frame,
    FrameCallback, FrameCallbackId, FrameSlotId, Method, PixelFormat, VmbError, VmbRuntime,
};

type OnFrame = Box<dyn for<'a> Fn(&Frame<'a>) + Send + Sync>;
type OnEvent = Box<dyn Fn(DiscoveryEvent) + Send + Sync>;
type Fake = FakeVmbRuntime<OnFrame, OnEvent>;

fn ignore_frames() -> Arc<FrameCallback<OnFrame>> {
    let f: OnFrame = Box::new(|_| {});
    Arc::new(FrameCallback::new(f))
}

fn on_event(f: OnEvent) -> Arc<DiscoveryCallback<OnEvent>> {
    Arc::new(DiscoveryCallback::new(f))
}

fn sdk(code: i32) -> VmbError {
    VmbError::Sdk { code }
}

fn info(id: &str) -> CameraInfo {
    CameraInfo {
        id: id.to_string(),
        model: "model".to_string(),
        serial: "serial".to_string(),
        name: "name".to_string(),
    }
}

#[test]
fn fresh_fake_answers_with_defaults() {
    let mut fake = Fake::new();
    assert!(!fake.is_started());
    assert_eq!(fake.call_count(), 0);
    assert!(fake.calls().is_empty());
    assert_eq!(fake.list_cameras(), Ok(vec![]));
    let h = fake.open_camera("cam-a").unwrap();
    assert_eq!(h.get(), 1);
    assert_eq!(fake.payload_size(h), Ok(1024));
    assert_eq!(fake.get_feature_int(h, "Width"), Ok(0));
    assert_eq!(fake.get_feature_float(h, "Gain"), Ok(0.0f64.to_bits()));
    assert_eq!(fake.load_settings(h, "/tmp/day.xml"), Ok(()));
    assert_eq!(fake.set_feature_float(h, "Gain", 1.5f64.to_bits()), Ok(()));
    assert_eq!(fake.set_feature_enum(h, "Mode", "Off"), Ok(()));
    assert_eq!(fake.run_feature_command(h, "Go"), Ok(()));
    assert_eq!(
        fake.calls(),
        vec![
            FakeCall::ListCameras,
            FakeCall::OpenCamera("cam-a".to_string()),
            FakeCall::PayloadSize(h),
            FakeCall::GetFeatureInt(h, "Width".to_string()),
            FakeCall::GetFeatureFloat(h, "Gain".to_string()),
            FakeCall::LoadSettings(h, "/tmp/day.xml".to_string()),
            FakeCall::SetFeatureFloat(h, "Gain".to_string(), 1.5f64.to_bits()),
            FakeCall::SetFeatureEnum(h, "Mode".to_string(), "Off".to_string()),
            FakeCall::RunFeatureCommand(h, "Go".to_string()),
        ]
    );
    assert_eq!(fake.call_count(), 9);
}

#[test]
fn default_is_a_fresh_fake() {
    let mut fake = Fake::default();
    assert_eq!(fake.call_count(), 0);
    assert_eq!(fake.pre_open_camera("cam-a").get(), 1);
}

#[test]
fn startup_succeeds_once_at_a_time() {
    let mut fake = Fake::new();
    assert_eq!(fake.startup(), Ok(()));
    assert!(fake.is_started());
    assert_eq!(fake.startup(), Err(VmbError::AlreadyStarted));
    assert!(fake.is_started());
    fake.shutdown();
    assert!(!fake.is_started());
    assert_eq!(fake.startup(), Ok(()));
    assert_eq!(
        fake.calls(),
        vec![
            FakeCall::Startup,
            FakeCall::Startup,
            FakeCall::Shutdown,
            FakeCall::Startup
        ]
    );
}

#[test]
fn failed_startup_may_be_retried() {
    let mut fake = Fake::new();
    fake.fail_next(Method::Startup, sdk(-7));
    assert_eq!(fake.startup(), Err(sdk(-7)));
    assert!(!fake.is_started());
    assert_eq!(fake.startup(), Ok(()));
    assert!(fake.is_started());
}

#[test]
fn shutdown_without_startup_is_tolerated() {
    let mut fake = Fake::new();
    fake.shutdown();
    assert!(!fake.is_started());
    assert_eq!(fake.calls(), vec![FakeCall::Shutdown]);
}

#[test]
fn nth_failure_counts_calls_to_come() {
    let mut fake = Fake::new();
    let h = fake.pre_open_camera("cam-a");
    assert_eq!(fake.payload_size(h), Ok(1024));
    assert_eq!(fake.payload_size(h), Ok(1024));
    fake.fail_nth(Method::PayloadSize, 1, sdk(-2));
    assert_eq!(fake.payload_size(h), Ok(1024));
    assert_eq!(fake.payload_size(h), Err(sdk(-2)));
    assert_eq!(fake.payload_size(h), Ok(1024));
}

#[test]
fn next_failure_hits_the_next_call_only() {
    let mut fake = Fake::new();
    assert_eq!(fake.list_cameras(), Ok(vec![]));
    fake.fail_next(Method::ListCameras, sdk(-3));
    assert_eq!(fake.startup(), Ok(()));
    assert_eq!(fake.list_cameras(), Err(sdk(-3)));
    assert_eq!(fake.list_cameras(), Ok(vec![]));
}

#[test]
fn later_failure_for_the_same_call_replaces_the_earlier() {
    let mut fake = Fake::new();
    fake.fail_next(Method::Startup, sdk(-1));
    fake.fail_next(Method::Startup, sdk(-2));
    assert_eq!(fake.startup(), Err(sdk(-2)));
    assert_eq!(fake.startup(), Ok(()));
}

#[test]
fn skip_at_the_limit_can_be_armed_after_calls() {
    let mut fake = Fake::new();
    let h = fake.pre_open_camera("cam-a");
    assert_eq!(fake.payload_size(h), Ok(1024));
    fake.fail_nth(Method::PayloadSize, u64::MAX, sdk(-2));
    assert_eq!(fake.payload_size(h), Ok(1024));
}

#[test]
fn every_fallible_method_can_be_made_to_fail() {
    let mut fake = Fake::new();
    let h = fake.pre_open_camera("cam-a");
    let methods = [
        Method::Startup,
        Method::ListCameras,
        Method::OpenCamera,
        Method::LoadSettings,
        Method::GetFeatureInt,
        Method::GetFeatureFloat,
        Method::SetFeatureFloat,
        Method::SetFeatureEnum,
        Method::RunFeatureCommand,
        Method::PayloadSize,
        Method::AnnounceFrame,
        Method::CaptureStart,
        Method::QueueFrame,
        Method::RegisterDiscovery,
    ];
    for m in methods {
        fake.fail_next(m, sdk(m.ordinal() as i32 + 100));
    }
    let cb = fake.install_discovery_callback(on_event(Box::new(|_| {})));
    assert_eq!(fake.startup(), Err(sdk(100)));
    assert_eq!(fake.list_cameras(), Err(sdk(101)));
    assert_eq!(fake.open_camera("cam-b"), Err(sdk(102)));
    assert_eq!(fake.load_settings(h, "p"), Err(sdk(103)));
    assert_eq!(fake.get_feature_int(h, "n"), Err(sdk(104)));
    assert_eq!(fake.get_feature_float(h, "n"), Err(sdk(105)));
    assert_eq!(fake.set_feature_float(h, "n", 0), Err(sdk(106)));
    assert_eq!(fake.set_feature_enum(h, "n", "v"), Err(sdk(107)));
    assert_eq!(fake.run_feature_command(h, "n"), Err(sdk(108)));
    assert_eq!(fake.payload_size(h), Err(sdk(109)));
    assert_eq!(fake.announce_frame(h, 8), Err(sdk(110)));
    assert_eq!(fake.capture_start(h), Err(sdk(111)));
    assert!(!fake.is_capturing(h));
    assert_eq!(
        fake.queue_frame(h, FrameSlotId(1), FrameCallbackId(1)),
        Err(sdk(112))
    );
    assert_eq!(fake.register_discovery(cb), Err(sdk(113)));
    assert_eq!(fake.handle_for("cam-b"), None);
    // All of them are used up.
    assert_eq!(fake.startup(), Ok(()));
    assert_eq!(fake.payload_size(h), Ok(1024));
}

#[test]
fn knobs_set_the_answers() {
    let mut fake = Fake::new();
    fake.set_camera_list(vec![info("cam-a"), info("cam-b")]);
    fake.set_payload_size(77);
    assert_eq!(fake.list_cameras(), Ok(vec![info("cam-a"), info("cam-b")]));
    let h = fake.pre_open_camera("cam-a");
    assert_eq!(fake.payload_size(h), Ok(77));
}

#[test]
fn pre_opened_camera_is_found_and_not_recorded() {
    let mut fake = Fake::new();
    fake.fail_next(Method::OpenCamera, sdk(-1));
    let handle = fake.pre_open_camera("cam-a");
    assert_eq!(fake.handle_for("cam-a"), Some(handle));
    assert!(fake.calls().is_empty());
    // The failure is still armed.
    assert_eq!(fake.open_camera("cam-b"), Err(sdk(-1)));
}

#[test]
fn bindings_with_one_id_coexist() {
    let mut fake = Fake::new();
    let first = fake.pre_open_camera("cam-a");
    let second = fake.pre_open_camera("cam-a");
    assert_ne!(first, second);
    assert_eq!(fake.handle_for("cam-a"), Some(first));
    fake.close_camera(first);
    assert_eq!(fake.handle_for("cam-a"), Some(second));
    fake.close_camera(second);
    assert_eq!(fake.handle_for("cam-a"), None);
}

#[test]
fn opened_camera_is_found_until_closed() {
    let mut fake = Fake::new();
    let a = fake.open_camera("cam-a").unwrap();
    let b = fake.open_camera("cam-b").unwrap();
    assert_eq!(fake.handle_for("cam-a"), Some(a));
    assert_eq!(fake.handle_for("cam-b"), Some(b));
    assert_eq!(fake.handle_for("cam-c"), None);
    fake.close_camera(a);
    assert_eq!(fake.handle_for("cam-a"), None);
    assert_eq!(fake.handle_for("cam-b"), Some(b));
}

#[test]
fn all_identifiers_come_from_one_counter() {
    let mut fake = Fake::new();
    assert!(fake.can_issue_handle());
    let h = fake.open_camera("cam-a").unwrap();
    let cb = fake.install_frame_callback(ignore_frames());
    let slot = fake.announce_frame(h, 16).unwrap();
    let dcb = fake.install_discovery_callback(on_event(Box::new(|_| {})));
    let reg = fake.register_discovery(dcb).unwrap();
    assert_eq!(
        (h.get(), cb.0, slot.0, dcb.0, reg.0),
        (1, 2, 3, 4, 5)
    );
    assert_eq!(fake.pre_open_camera("cam-b").get(), 6);
    assert_eq!(
        fake.calls(),
        vec![
            FakeCall::OpenCamera("cam-a".to_string()),
            FakeCall::InstallFrameCallback(cb),
            FakeCall::AnnounceFrame(h, 16),
            FakeCall::InstallDiscoveryCallback(dcb),
            FakeCall::RegisterDiscovery(dcb),
        ]
    );
}

#[test]
fn frames_may_only_be_queued_during_a_capture() {
    let mut fake = Fake::new();
    let h = fake.pre_open_camera("cam-a");
    let cb = fake.install_frame_callback(ignore_frames());
    let slot = fake.announce_frame(h, 16).unwrap();
    let refused = VmbError::InvalidString {
        context: "frame queued outside a capture",
    };
    assert_eq!(fake.queue_frame(h, slot, cb), Err(refused.clone()));
    assert!(!fake.is_capturing(h));
    assert_eq!(fake.capture_start(h), Ok(()));
    assert_eq!(fake.queue_frame(h, slot, cb), Ok(()));
    fake.capture_end(h);
    assert_eq!(fake.queue_frame(h, slot, cb), Err(refused));
}

#[test]
fn second_capture_start_keeps_the_queue() {
    let mut fake = Fake::new();
    let h = fake.pre_open_camera("cam-a");
    let cb = fake.install_frame_callback(ignore_frames());
    assert_eq!(fake.capture_start(h), Ok(()));
    assert_eq!(fake.queue_frame(h, FrameSlotId(9), cb), Ok(()));
    assert_eq!(fake.capture_start(h), Ok(()));
    assert!(fake.frame_callback_for(h).is_some());
}

#[test]
fn delivered_frame_carries_its_content() {
    let mut fake = Fake::new();
    let h = fake.pre_open_camera("cam-a");
    let seen: Arc<Mutex<Vec<(Vec<u8>, u32, u32, PixelFormat, u64, u64)>>> =
        Arc::new(Mutex::new(Vec::new()));
    let log = seen.clone();
    let f: OnFrame = Box::new(move |frame| {
        log.lock().unwrap().push((
            frame.bytes.to_vec(),
            frame.width,
            frame.height,
            frame.pixel_format,
            frame.timestamp_ns,
            frame.frame_id,
        ));
    });
    let cb = fake.install_frame_callback(Arc::new(FrameCallback::new(f)));
    assert_eq!(fake.capture_start(h), Ok(()));
    assert!(!fake.deliver_frame(h, &[1, 2], 2, 1, PixelFormat(5)));
    assert_eq!(fake.queue_frame(h, FrameSlotId(9), cb), Ok(()));
    assert!(fake.deliver_frame(h, &[1, 2], 2, 1, PixelFormat(5)));
    assert!(fake.deliver_frame(h, &[3], 1, 1, PixelFormat(6)));
    assert_eq!(
        *seen.lock().unwrap(),
        vec![
            (vec![1, 2], 2, 1, PixelFormat(5), 3, 3),
            (vec![3], 1, 1, PixelFormat(6), 4, 4),
        ]
    );
}

#[test]
fn delivery_hands_out_callback_and_number() {
    let mut fake = Fake::new();
    let h = fake.pre_open_camera("cam-a");
    let cb = ignore_frames();
    let id = fake.install_frame_callback(cb.clone());
    assert_eq!(fake.capture_start(h), Ok(()));
    assert!(fake.next_delivery(h).is_none());
    assert_eq!(fake.queue_frame(h, FrameSlotId(9), id), Ok(()));
    let (to, number) = fake.next_delivery(h).unwrap();
    assert!(Arc::ptr_eq(to, &cb));
    assert_eq!(number, 3);
    let (_, number) = fake.next_delivery(h).unwrap();
    assert_eq!(number, 4);
}

#[test]
fn numbered_frame_carries_its_number_twice() {
    let frame = Frame::numbered(&[7], 1, 2, PixelFormat(3), 9);
    assert_eq!(
        (frame.bytes, frame.width, frame.height, frame.pixel_format),
        (&[7u8][..], 1, 2, PixelFormat(3))
    );
    assert_eq!((frame.timestamp_ns, frame.frame_id), (9, 9));
}

#[test]
fn uninstalled_callback_gets_no_frame() {
    let mut fake = Fake::new();
    let h = fake.pre_open_camera("cam-a");
    let cb = fake.install_frame_callback(ignore_frames());
    assert_eq!(fake.capture_start(h), Ok(()));
    assert_eq!(fake.queue_frame(h, FrameSlotId(9), cb), Ok(()));
    fake.uninstall_frame_callback(cb);
    assert!(fake.frame_callback_for(h).is_none());
    assert!(!fake.deliver_frame(h, &[], 0, 0, PixelFormat(0)));
    // No identifier was spent on a frame that was not delivered.
    assert_eq!(fake.pre_open_camera("cam-b").get(), 3);
}

#[test]
fn closing_a_camera_ends_its_capture() {
    let mut fake = Fake::new();
    let h = fake.pre_open_camera("cam-a");
    let other = fake.pre_open_camera("cam-b");
    assert_eq!(fake.capture_start(h), Ok(()));
    assert_eq!(fake.capture_start(other), Ok(()));
    fake.close_camera(h);
    assert!(!fake.is_capturing(h));
    assert!(fake.is_capturing(other));
}

#[test]
fn discovery_drives_registered_callbacks_once_each() {
    let mut fake = Fake::new();
    let counts: Vec<Arc<AtomicUsize>> = (0..3).map(|_| Arc::new(AtomicUsize::new(0))).collect();
    let ids: Vec<_> = counts
        .iter()
        .map(|count| {
            let c = count.clone();
            fake.install_discovery_callback(on_event(Box::new(move |event| {
                if event == DiscoveryEvent::Detected("cam-a".to_string()) {
                    c.fetch_add(1, Ordering::SeqCst);
                }
            })))
        })
        .collect();
    for id in &ids {
        assert!(fake.register_discovery(*id).is_ok());
    }
    // A second registration does not drive a callback twice.
    assert!(fake.register_discovery(ids[0]).is_ok());
    fake.uninstall_discovery_callback(ids[1]);
    assert_eq!(fake.discovery_callbacks().len(), 2);
    fake.emit_discovery(DiscoveryEvent::Detected("cam-a".to_string()));
    fake.emit_discovery(DiscoveryEvent::Missing("cam-a".to_string()));
    let seen: Vec<usize> = counts.iter().map(|c| c.load(Ordering::SeqCst)).collect();
    assert_eq!(seen, vec![1, 0, 1]);
}

#[test]
fn unregistered_callback_is_not_driven() {
    let mut fake = Fake::new();
    let count = Arc::new(AtomicUsize::new(0));
    let c = count.clone();
    let id = fake.install_discovery_callback(on_event(Box::new(move |_| {
        c.fetch_add(1, Ordering::SeqCst);
    })));
    let event = DiscoveryEvent::Detected("cam-a".to_string());
    // Installed, but never registered.
    fake.emit_discovery(event.clone());
    assert_eq!(count.load(Ordering::SeqCst), 0);
    let first = fake.register_discovery(id).unwrap();
    let second = fake.register_discovery(id).unwrap();
    fake.emit_discovery(event.clone());
    assert_eq!(count.load(Ordering::SeqCst), 1);
    fake.unregister_discovery(first);
    fake.emit_discovery(event.clone());
    assert_eq!(count.load(Ordering::SeqCst), 2);
    // Every registration is ended.
    fake.unregister_discovery(second);
    fake.emit_discovery(event);
    assert_eq!(count.load(Ordering::SeqCst), 2);
    assert!(fake.discovery_callbacks().is_empty());
}

#[test]
fn flush_empties_the_queue_of_one_camera() {
    let mut fake = Fake::new();
    let h = fake.pre_open_camera("cam-a");
    let other = fake.pre_open_camera("cam-b");
    let cb = fake.install_frame_callback(ignore_frames());
    for camera in [h, other] {
        assert_eq!(fake.capture_start(camera), Ok(()));
        assert_eq!(fake.queue_frame(camera, FrameSlotId(9), cb), Ok(()));
    }
    assert!(fake.deliver_frame(h, &[], 0, 0, PixelFormat(0)));
    fake.capture_queue_flush(h);
    assert!(fake.is_capturing(h));
    assert!(!fake.deliver_frame(h, &[], 0, 0, PixelFormat(0)));
    assert!(fake.deliver_frame(other, &[], 0, 0, PixelFormat(0)));
    // The capture goes on once a slot is queued again.
    assert_eq!(fake.queue_frame(h, FrameSlotId(9), cb), Ok(()));
    assert!(fake.deliver_frame(h, &[], 0, 0, PixelFormat(0)));
}

#[test]
fn flush_without_a_capture_starts_none() {
    let mut fake = Fake::new();
    let h = fake.pre_open_camera("cam-a");
    fake.capture_queue_flush(h);
    assert!(!fake.is_capturing(h));
}

#[test]
fn failure_plan_counts_calls_and_uses_failures_up() {
    let mut plan = FailurePlan::new();
    assert_eq!(plan.maybe_fail(Method::Startup), Ok(()));
    plan.arm(Method::Startup, 1, sdk(-1));
    plan.arm(Method::ListCameras, 0, sdk(-2));
    assert!(!plan.is_due(Method::Startup));
    assert!(plan.is_due(Method::ListCameras));
    assert_eq!(plan.maybe_fail(Method::Startup), Ok(()));
    assert!(plan.is_due(Method::Startup));
    assert_eq!(plan.maybe_fail(Method::Startup), Err(sdk(-1)));
    assert_eq!(plan.maybe_fail(Method::Startup), Ok(()));
    assert_eq!(plan.maybe_fail(Method::ListCameras), Err(sdk(-2)));
    assert_eq!(plan.maybe_fail(Method::ListCameras), Ok(()));
}

#[test]
fn numbers_count_up_from_one() {
    let mut counter = IdCounter::new();
    assert!(counter.has_id());
    assert_eq!(counter.next_u64(), 1);
    assert_eq!(counter.next_id(), 2);
    assert_eq!(counter.next_u64(), 3);
    assert_eq!(counter.next_id(), 4);
}

#[test]
fn camera_can_be_opened_while_handles_are_left() {
    let mut fake = Fake::new();
    assert!(fake.can_open_camera());
    fake.fail_next(Method::OpenCamera, sdk(-1));
    assert!(fake.can_open_camera());
}

#[test]
fn teardown_calls_are_tolerated_out_of_order() {
    let mut fake = Fake::new();
    let h = CameraHandle::new(42);
    fake.capture_end(h);
    fake.capture_queue_flush(h);
    fake.frame_revoke_all(h);
    fake.close_camera(h);
    fake.unregister_discovery(vmb::DiscoveryRegistrationHandle(7));
    assert_eq!(
        fake.calls(),
        vec![
            FakeCall::CaptureEnd(h),
            FakeCall::CaptureQueueFlush(h),
            FakeCall::FrameRevokeAll(h),
            FakeCall::CloseCamera(h),
            FakeCall::UnregisterDiscovery(vmb::DiscoveryRegistrationHandle(7)),
        ]
    );
}
