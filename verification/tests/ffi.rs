use std::sync::atomic::{AtomicUsize, Ordering};
use std::sync::Arc;

use vmb::ffi::{reply, CameraQuery, RawCameraInfo, StartedFlag};
use vmb::sdk::{CText, SdkCall};
use vmb::{
    check, CameraHandle, CameraInfo, DiscoveryCallback, DiscoveryCallbackId, DiscoveryEvent,
    DiscoveryRegistrationHandle, Frame, FrameCallback, FrameCallbackId, FrameSlotId, PixelFormat,
    VmbError, VmbFfiRuntime,
};

type OnFrame = Box<dyn for<'a> Fn(&Frame<'a>) + Send + Sync>;
type OnEvent = Box<dyn Fn(DiscoveryEvent) + Send + Sync>;
type Ffi = VmbFfiRuntime<OnFrame, OnEvent>;

fn frames(f: OnFrame) -> Arc<FrameCallback<OnFrame>> {
    Arc::new(FrameCallback::new(f))
}

fn events(f: OnEvent) -> Arc<DiscoveryCallback<OnEvent>> {
    Arc::new(DiscoveryCallback::new(f))
}

fn text(s: &str) -> CText {
    CText::new(s, "test").unwrap()
}

fn invalid(context: &'static str) -> VmbError {
    VmbError::InvalidString { context }
}

fn sdk(code: i32) -> VmbError {
    VmbError::Sdk { code }
}

/// A runtime with one open camera, whose SDK handle is 77.
fn with_camera() -> (Ffi, CameraHandle) {
    let mut ffi = Ffi::with_api();
    let h = ffi.open_camera_done(0, 77).unwrap();
    (ffi, h)
}

#[test]
fn return_code_zero_is_success() {
    assert_eq!(check(0), Ok(()));
    assert_eq!(check(-1), Err(sdk(-1)));
    assert_eq!(check(5), Err(sdk(5)));
    assert_eq!(reply(0, 9u32), Ok(9));
    assert_eq!(reply(-3, 9u32), Err(sdk(-3)));
}

#[test]
fn c_text_holds_no_nul() {
    assert_eq!(CText::new("abc", "ctx").unwrap().as_str(), "abc");
    assert_eq!(CText::new("", "ctx").unwrap().as_str(), "");
    assert_eq!(CText::new("a\0c", "ctx").err(), Some(invalid("ctx")));
    assert_eq!(CText::new("abc\0", "ctx").err(), Some(invalid("ctx")));
}

#[test]
fn load_failure_is_reported_with_its_message() {
    assert!(Ffi::new(Ok(())).is_ok());
    assert_eq!(
        Ffi::new(Err("no such file".to_string())).err(),
        Some(VmbError::LoadFailed {
            message: "no such file".to_string()
        })
    );
}

#[test]
fn sdk_is_started_once_at_a_time() {
    let mut flag = StartedFlag::new();
    let a = Ffi::with_api();
    let b = Ffi::with_api();
    assert_eq!(a.startup(&mut flag), Ok(SdkCall::Startup));
    // While the call is under way, another runtime is refused.
    assert_eq!(b.startup(&mut flag), Err(VmbError::AlreadyStarted));
    assert_eq!(a.startup_done(&mut flag, 0), Ok(()));
    assert_eq!(a.startup(&mut flag), Err(VmbError::AlreadyStarted));
    assert_eq!(a.shutdown(&mut flag), Some(SdkCall::Shutdown));
    assert_eq!(a.shutdown(&mut flag), None);
    assert_eq!(b.startup(&mut flag), Ok(SdkCall::Startup));
}

#[test]
fn failed_sdk_startup_gives_the_flag_back() {
    let mut flag = StartedFlag::new();
    let ffi = Ffi::with_api();
    assert_eq!(ffi.startup(&mut flag), Ok(SdkCall::Startup));
    assert_eq!(ffi.startup_done(&mut flag, -2), Err(sdk(-2)));
    assert_eq!(ffi.shutdown(&mut flag), None);
    assert_eq!(ffi.startup(&mut flag), Ok(SdkCall::Startup));
}

#[test]
fn cameras_are_counted_and_then_fetched() {
    let ffi = Ffi::with_api();
    assert_eq!(ffi.list_cameras(), SdkCall::CamerasList { capacity: 0 });
    assert_eq!(ffi.list_cameras_counted(-1, 3), Err(sdk(-1)));
    assert_eq!(ffi.list_cameras_counted(0, 0), Ok(CameraQuery::Empty));
    assert_eq!(
        ffi.list_cameras_counted(0, 3),
        Ok(CameraQuery::Fetch(SdkCall::CamerasList { capacity: 3 }))
    );
}

fn raw(id: Option<&str>) -> RawCameraInfo {
    RawCameraInfo {
        id: id.map(|s| s.to_string()),
        model: Some("model".to_string()),
        serial: None,
        name: Some("name".to_string()),
    }
}

#[test]
fn fetched_cameras_are_cut_to_those_found() {
    let ffi = Ffi::with_api();
    let entries = vec![raw(Some("a")), raw(None), raw(Some("c"))];
    let cameras = ffi.list_cameras_done(0, entries, 2).unwrap();
    assert_eq!(
        cameras,
        vec![
            CameraInfo {
                id: "a".to_string(),
                model: "model".to_string(),
                serial: "<unknown>".to_string(),
                name: "name".to_string(),
            },
            CameraInfo {
                id: "<unknown>".to_string(),
                model: "model".to_string(),
                serial: "<unknown>".to_string(),
                name: "name".to_string(),
            },
        ]
    );
    // More found than there is room for: all that there is.
    let entries = vec![raw(Some("a"))];
    assert_eq!(ffi.list_cameras_done(0, entries, 9).unwrap().len(), 1);
    let entries = vec![raw(Some("a"))];
    assert_eq!(ffi.list_cameras_done(-4, entries, 1), Err(sdk(-4)));
}

#[test]
fn opened_camera_is_known_by_its_handle() {
    let mut ffi = Ffi::with_api();
    assert!(ffi.can_issue_handle());
    assert_eq!(
        ffi.open_camera("cam-a"),
        Ok(SdkCall::CameraOpen { id: text("cam-a") })
    );
    assert_eq!(ffi.open_camera("cam\0a"), Err(invalid("camera_id")));
    assert_eq!(ffi.open_camera_done(-6, 77), Err(sdk(-6)));
    let h = ffi.open_camera_done(0, 77).unwrap();
    assert_eq!(h.get(), 1);
    assert_eq!(ffi.payload_size(h), Ok(SdkCall::PayloadSizeGet { camera: 77 }));
    let other = ffi.open_camera_done(0, 78).unwrap();
    assert_eq!(ffi.close_camera(h), Some(SdkCall::CameraClose { camera: 77 }));
    assert_eq!(ffi.close_camera(h), None);
    assert_eq!(ffi.payload_size(h), Err(invalid("unknown camera handle")));
    assert_eq!(
        ffi.payload_size(other),
        Ok(SdkCall::PayloadSizeGet { camera: 78 })
    );
}

#[test]
fn unknown_camera_is_refused_before_bad_text() {
    let ffi = Ffi::with_api();
    let h = CameraHandle::new(5);
    let unknown = Err(invalid("unknown camera handle"));
    assert_eq!(ffi.load_settings(h, "a\0"), unknown);
    assert_eq!(ffi.get_feature_int(h, "a\0"), unknown);
    assert_eq!(ffi.get_feature_float(h, "a\0"), unknown);
    assert_eq!(ffi.set_feature_float(h, "a\0", 0), unknown);
    assert_eq!(ffi.set_feature_enum(h, "a\0", "b\0"), unknown);
    assert_eq!(ffi.run_feature_command(h, "a\0"), unknown);
    assert_eq!(ffi.announce_frame(h, 8), unknown);
    assert_eq!(ffi.capture_start(h), unknown);
    assert_eq!(ffi.capture_end(h), None);
    assert_eq!(ffi.capture_queue_flush(h), None);
    assert_eq!(ffi.frame_revoke_all(h), None);
}

#[test]
fn text_with_a_nul_is_refused_with_its_context() {
    let (ffi, h) = with_camera();
    assert_eq!(ffi.load_settings(h, "a\0"), Err(invalid("settings_xml path")));
    assert_eq!(ffi.get_feature_int(h, "a\0"), Err(invalid("feature_int_get")));
    assert_eq!(ffi.get_feature_float(h, "a\0"), Err(invalid("feature_float_get")));
    assert_eq!(ffi.set_feature_float(h, "a\0", 0), Err(invalid("feature_float_set")));
    assert_eq!(
        ffi.set_feature_enum(h, "a\0", "b\0"),
        Err(invalid("feature_enum_set_name"))
    );
    assert_eq!(
        ffi.set_feature_enum(h, "a", "b\0"),
        Err(invalid("feature_enum_set_value"))
    );
    assert_eq!(ffi.run_feature_command(h, "a\0"), Err(invalid("feature_command")));
}

#[test]
fn calls_name_the_sdk_handle_and_the_arguments() {
    let (ffi, h) = with_camera();
    let camera = 77;
    assert_eq!(
        ffi.load_settings(h, "day.xml"),
        Ok(SdkCall::SettingsLoad { camera, path: text("day.xml") })
    );
    assert_eq!(
        ffi.get_feature_int(h, "Width"),
        Ok(SdkCall::FeatureIntGet { camera, name: text("Width") })
    );
    assert_eq!(
        ffi.get_feature_float(h, "Gain"),
        Ok(SdkCall::FeatureFloatGet { camera, name: text("Gain") })
    );
    let bits = 0.5f64.to_bits();
    assert_eq!(
        ffi.set_feature_float(h, "Gain", bits),
        Ok(SdkCall::FeatureFloatSet { camera, name: text("Gain"), bits })
    );
    assert_eq!(
        ffi.set_feature_enum(h, "Mode", "On"),
        Ok(SdkCall::FeatureEnumSet { camera, name: text("Mode"), value: text("On") })
    );
    assert_eq!(
        ffi.run_feature_command(h, "Go"),
        Ok(SdkCall::FeatureCommandRun { camera, name: text("Go") })
    );
    assert_eq!(
        ffi.announce_frame(h, 640),
        Ok(SdkCall::FrameAnnounce { camera, size: 640 })
    );
    assert_eq!(ffi.capture_start(h), Ok(SdkCall::CaptureStart { camera }));
    assert_eq!(ffi.capture_end(h), Some(SdkCall::CaptureEnd { camera }));
    assert_eq!(
        ffi.capture_queue_flush(h),
        Some(SdkCall::CaptureQueueFlush { camera })
    );
    assert_eq!(ffi.frame_revoke_all(h), Some(SdkCall::FrameRevokeAll { camera }));
}

#[test]
fn queueing_needs_camera_callback_and_slot() {
    let (mut ffi, h) = with_camera();
    let unknown_h = CameraHandle::new(99);
    let unknown_cb = FrameCallbackId(99);
    let unknown_slot = FrameSlotId(99);
    assert_eq!(
        ffi.queue_frame(unknown_h, unknown_slot, unknown_cb),
        Err(invalid("unknown camera handle"))
    );
    assert_eq!(
        ffi.queue_frame(h, unknown_slot, unknown_cb),
        Err(invalid("unknown frame callback id"))
    );
    let cb = ffi.install_frame_callback(frames(Box::new(|_| {})));
    assert_eq!(
        ffi.queue_frame(h, unknown_slot, cb),
        Err(invalid("unknown frame slot id"))
    );
    assert_eq!(ffi.announce_frame_done(h, 640, -9), Err(sdk(-9)));
    let slot = ffi.announce_frame_done(h, 640, 0).unwrap();
    assert_eq!((h.get(), cb.0, slot.0), (1, 2, 3));
    assert_eq!(
        ffi.queue_frame(h, slot, cb),
        Ok(SdkCall::CaptureFrameQueue { camera: 77, slot, callback: cb })
    );
    ffi.uninstall_frame_callback(cb);
    assert_eq!(
        ffi.queue_frame(h, slot, cb),
        Err(invalid("unknown frame callback id"))
    );
}

#[test]
fn revoking_forgets_the_slots_of_one_camera() {
    let (mut ffi, a) = with_camera();
    let b = ffi.open_camera_done(0, 78).unwrap();
    let cb = ffi.install_frame_callback(frames(Box::new(|_| {})));
    let a1 = ffi.announce_frame_done(a, 8, 0).unwrap();
    let b1 = ffi.announce_frame_done(b, 8, 0).unwrap();
    let a2 = ffi.announce_frame_done(a, 8, 0).unwrap();
    let mut released: Vec<u64> = ffi.frame_revoke_all_done(a).iter().map(|s| s.0).collect();
    released.sort();
    assert_eq!(released, vec![a1.0, a2.0]);
    assert_eq!(ffi.queue_frame(a, a1, cb), Err(invalid("unknown frame slot id")));
    assert!(ffi.queue_frame(b, b1, cb).is_ok());
    assert!(ffi.frame_revoke_all_done(a).is_empty());
}

#[test]
fn subscription_is_ended_once() {
    let mut ffi = Ffi::with_api();
    assert_eq!(
        ffi.register_discovery(DiscoveryCallbackId(9)),
        Err(invalid("unknown discovery callback id"))
    );
    let cb = ffi.install_discovery_callback(events(Box::new(|_| {})));
    assert_eq!(
        ffi.register_discovery(cb),
        Ok(SdkCall::InvalidationRegister {
            feature: text("EventCameraDiscovery"),
            subscriber: cb,
        })
    );
    assert_eq!(ffi.register_discovery_done(cb, -1), Err(sdk(-1)));
    let r = ffi.register_discovery_done(cb, 0).unwrap();
    assert_eq!(r, DiscoveryRegistrationHandle(2));
    assert_eq!(
        ffi.unregister_discovery(r),
        Some(SdkCall::InvalidationUnregister {
            feature: text("EventCameraDiscovery"),
            registration: r,
        })
    );
    assert_eq!(ffi.unregister_discovery(r), None);
}

#[test]
fn installed_callbacks_can_be_reached() {
    let mut ffi = Ffi::with_api();
    let count = Arc::new(AtomicUsize::new(0));
    let c = count.clone();
    let cb = ffi.install_frame_callback(frames(Box::new(move |frame| {
        c.fetch_add(frame.width as usize, Ordering::SeqCst);
    })));
    let d = count.clone();
    let dcb = ffi.install_discovery_callback(events(Box::new(move |_| {
        d.fetch_add(100, Ordering::SeqCst);
    })));
    let frame = Frame::new(&[0, 0, 0], 3, 1, PixelFormat(0), 1, 1);
    ffi.frame_callback(cb).unwrap().invoke(&frame);
    ffi.discovery_callback(dcb)
        .unwrap()
        .invoke(DiscoveryEvent::Missing("cam-a".to_string()));
    assert_eq!(count.load(Ordering::SeqCst), 103);
    ffi.uninstall_frame_callback(cb);
    ffi.uninstall_discovery_callback(dcb);
    assert!(ffi.frame_callback(cb).is_none());
    assert!(ffi.discovery_callback(dcb).is_none());
}
