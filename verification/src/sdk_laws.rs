//! What the calls into the SDK carry, and what its replies mean, written out.

use vstd::prelude::*;

use crate::camera::{FEATURE_ACQUISITION_START, FEATURE_ACQUISITION_STOP};
use crate::error::{checked, VmbError};
use crate::ffi::{
    as_c_text, describes, flag_after_startup, shutdown_plan, startup_plan, FfiView, RawCameraInfo,
    FEATURE_EVENT_CAMERA_DISCOVERY, UNKNOWN, UNKNOWN_CAMERA, UNKNOWN_DISCOVERY_CALLBACK,
    UNKNOWN_FRAME_CALLBACK, UNKNOWN_FRAME_SLOT,
};
use crate::ids::number;
use crate::sdk::{optional, planned, CText, SdkCall, SdkCallView};
use crate::types::{
    CameraHandle, CameraInfo, DiscoveryCallbackId, DiscoveryRegistrationHandle, FrameCallbackId,
    FrameSlotId,
};

verus! {

/// Zero is the only return code that means success; every other one is reported as it
/// came.
pub proof fn law_return_code_zero_alone_is_success(code: i32)
    ensures
        checked(code) is Ok <==> code == 0,
        code != 0 ==> checked(code) == Err::<(), VmbError>(VmbError::Sdk { code }),
{
}

/// Each description of a listed camera is the text that the SDK gave for it; only where
/// the SDK gave none, it is shown as unknown.
pub proof fn law_listed_camera_shows_what_the_sdk_gave(info: CameraInfo, raw: RawCameraInfo)
    requires
        describes(info, raw),
    ensures
        raw.id matches Some(s) ==> info.id@ == s@,
        raw.model matches Some(s) ==> info.model@ == s@,
        raw.serial matches Some(s) ==> info.serial@ == s@,
        raw.name matches Some(s) ==> info.name@ == s@,
        raw.id is None ==> info.id@ == "<unknown>"@,
        raw.model is None ==> info.model@ == "<unknown>"@,
        raw.serial is None ==> info.serial@ == "<unknown>"@,
        raw.name is None ==> info.name@ == "<unknown>"@,
{
}

/// Two cameras that the SDK describes alike are listed alike: no description is taken
/// from anywhere else.
pub proof fn law_listing_depends_on_the_description_alone(
    a: CameraInfo,
    b: CameraInfo,
    raw: RawCameraInfo,
)
    requires
        describes(a, raw),
    ensures
        describes(b, raw) <==> {
            &&& a.id@ == b.id@
            &&& a.model@ == b.model@
            &&& a.serial@ == b.serial@
            &&& a.name@ == b.name@
        },
{
}

/// A call into the SDK carries the handle, the text and the numbers that it was planned
/// with, each in its own place.
pub proof fn law_sdk_call_carries_its_arguments(
    camera: usize,
    text: CText,
    value: CText,
    bits: u64,
    size: u32,
    slot: FrameSlotId,
    callback: FrameCallbackId,
    subscriber: DiscoveryCallbackId,
    registration: DiscoveryRegistrationHandle,
)
    ensures
        SdkCall::Startup@ == SdkCallView::Startup,
        SdkCall::Shutdown@ == SdkCallView::Shutdown,
        (SdkCall::CamerasList { capacity: size })@ == (SdkCallView::CamerasList {
            capacity: size,
        }),
        (SdkCall::CameraOpen { id: text })@ == (SdkCallView::CameraOpen { id: text@ }),
        (SdkCall::CameraClose { camera })@ == (SdkCallView::CameraClose { camera }),
        (SdkCall::SettingsLoad { camera, path: text })@ == (SdkCallView::SettingsLoad {
            camera,
            path: text@,
        }),
        (SdkCall::FeatureIntGet { camera, name: text })@ == (SdkCallView::FeatureIntGet {
            camera,
            name: text@,
        }),
        (SdkCall::FeatureFloatGet { camera, name: text })@ == (SdkCallView::FeatureFloatGet {
            camera,
            name: text@,
        }),
        (SdkCall::FeatureFloatSet { camera, name: text, bits })@ == (
        SdkCallView::FeatureFloatSet { camera, name: text@, bits }),
        (SdkCall::FeatureEnumSet { camera, name: text, value })@ == (
        SdkCallView::FeatureEnumSet { camera, name: text@, value: value@ }),
        (SdkCall::FeatureCommandRun { camera, name: text })@ == (SdkCallView::FeatureCommandRun {
            camera,
            name: text@,
        }),
        (SdkCall::PayloadSizeGet { camera })@ == (SdkCallView::PayloadSizeGet { camera }),
        (SdkCall::FrameAnnounce { camera, size })@ == (SdkCallView::FrameAnnounce {
            camera,
            size,
        }),
        (SdkCall::CaptureStart { camera })@ == (SdkCallView::CaptureStart { camera }),
        (SdkCall::CaptureFrameQueue { camera, slot, callback })@ == (
        SdkCallView::CaptureFrameQueue { camera, slot, callback }),
        (SdkCall::CaptureEnd { camera })@ == (SdkCallView::CaptureEnd { camera }),
        (SdkCall::CaptureQueueFlush { camera })@ == (SdkCallView::CaptureQueueFlush { camera }),
        (SdkCall::FrameRevokeAll { camera })@ == (SdkCallView::FrameRevokeAll { camera }),
        (SdkCall::InvalidationRegister { feature: text, subscriber })@ == (
        SdkCallView::InvalidationRegister { feature: text@, subscriber }),
        (SdkCall::InvalidationUnregister { feature: text, registration })@ == (
        SdkCallView::InvalidationUnregister { feature: text@, registration }),
{
}

/// A plan is the call that was planned, or the error; a call that may not be needed is
/// that call, or none.
pub proof fn law_plan_is_the_call_or_the_error(
    r: Result<SdkCall, VmbError>,
    call: Option<SdkCall>,
)
    ensures
        r matches Ok(c) ==> planned(r) == Ok::<SdkCallView, VmbError>(c@),
        r matches Err(e) ==> planned(r) == Err::<SdkCallView, VmbError>(e),
        call matches Some(c) ==> optional(call) == Some(c@),
        call is None ==> optional(call) is None,
{
}

/// Text goes to the SDK as it is, unless a NUL occurs in it anywhere; then the error
/// names what the text was for.
pub proof fn law_text_with_a_nul_is_refused(text: Seq<char>, context: &'static str, i: int)
    ensures
        0 <= i < text.len() && text[i] == '\0' ==> as_c_text(text, context) == Err::<
            Seq<char>,
            VmbError,
        >(VmbError::InvalidString { context }),
        as_c_text(text, context) is Err ==> exists|j: int|
            0 <= j < text.len() && #[trigger] text[j] == '\0',
        as_c_text(text, context) matches Ok(t) ==> t == text,
{
    if 0 <= i < text.len() && text[i] == '\0' {
        assert(text.contains('\0'));
    }
}

/// Startup is planned exactly while the SDK is not started, and shutdown exactly while
/// it is; the flag survives a startup only with a return code of zero.
pub proof fn law_startup_and_shutdown_go_by_the_flag(started: bool, code: i32)
    ensures
        startup_plan(started) == if started {
            Err::<SdkCallView, VmbError>(VmbError::AlreadyStarted)
        } else {
            Ok(SdkCallView::Startup)
        },
        shutdown_plan(started) == if started {
            Some(SdkCallView::Shutdown)
        } else {
            None
        },
        flag_after_startup(started, code) <==> started && code == 0,
{
}

/// A camera handle stands for the SDK's handle that it was opened with; without one the
/// camera is unknown.
pub proof fn law_handle_stands_for_the_sdk_handle<F, D>(v: FfiView<F, D>, h: CameraHandle)
    ensures
        v.cameras.contains_key(h@) ==> v.camera(h) == Ok::<usize, VmbError>(v.cameras[h@]),
        !v.cameras.contains_key(h@) ==> v.camera(h) == Err::<usize, VmbError>(
            VmbError::InvalidString { context: "unknown camera handle" },
        ),
{
}

/// A slot is queued on the camera, and with the callback, that it is asked for. An
/// unknown camera is refused before an unknown callback, and that before an unknown
/// slot.
pub proof fn law_queueing_needs_camera_callback_and_slot<F, D>(
    v: FfiView<F, D>,
    h: CameraHandle,
    slot: FrameSlotId,
    cb: FrameCallbackId,
)
    ensures
        v.queue_plan(h, slot, cb) == if !v.cameras.contains_key(h@) {
            Err::<SdkCallView, VmbError>(
                VmbError::InvalidString { context: "unknown camera handle" },
            )
        } else if !v.frame_callbacks.contains_key(cb.0) {
            Err(VmbError::InvalidString { context: "unknown frame callback id" })
        } else if !v.frames.contains_key(slot.0) {
            Err(VmbError::InvalidString { context: "unknown frame slot id" })
        } else {
            Ok(
                SdkCallView::CaptureFrameQueue {
                    camera: v.cameras[h@],
                    slot,
                    callback: cb,
                },
            )
        },
{
}

/// The names by which the SDK and the callers know things are these.
pub proof fn law_names_are_spelled_out()
    ensures
        FEATURE_EVENT_CAMERA_DISCOVERY@ == "EventCameraDiscovery"@,
        UNKNOWN@ == "<unknown>"@,
        UNKNOWN_CAMERA@ == "unknown camera handle"@,
        UNKNOWN_FRAME_CALLBACK@ == "unknown frame callback id"@,
        UNKNOWN_FRAME_SLOT@ == "unknown frame slot id"@,
        UNKNOWN_DISCOVERY_CALLBACK@ == "unknown discovery callback id"@,
        FEATURE_ACQUISITION_START@ == "AcquisitionStart"@,
        FEATURE_ACQUISITION_STOP@ == "AcquisitionStop"@,
{
}

/// A live subscription is ended with a call for the discovery feature and for itself;
/// one that is not live needs no call.
pub proof fn law_live_subscription_is_ended_with_a_call<F, D>(
    v: FfiView<F, D>,
    r: DiscoveryRegistrationHandle,
)
    ensures
        v.unsubscription(r) == if v.discovery_regs.contains_key(r.0) {
            Some(
                SdkCallView::InvalidationUnregister {
                    feature: "EventCameraDiscovery"@,
                    registration: r,
                },
            )
        } else {
            None
        },
{
}

/// Of the announced frames, those of other cameras are left, each as it was, and none of
/// the camera itself.
pub proof fn law_frames_of_other_cameras_are_left<F, D>(
    v: FfiView<F, D>,
    h: CameraHandle,
    slot: u64,
)
    ensures
        v.frames_elsewhere(h).contains_key(slot) <==> v.frames.contains_key(slot)
            && v.frames[slot].camera != h@,
        v.frames_elsewhere(h).contains_key(slot) ==> v.frames_elsewhere(h)[slot] == v.frames[slot],
{
}

/// A fresh backend knows nothing, and its numbers begin at one; giving out a number
/// counts one more and changes nothing else.
pub proof fn law_backend_starts_empty_and_counts_up<F, D>(v: FfiView<F, D>, key: u64)
    ensures
        !FfiView::<F, D>::fresh().cameras.contains_key(key),
        !FfiView::<F, D>::fresh().frames.contains_key(key),
        !FfiView::<F, D>::fresh().frame_callbacks.contains_key(key),
        !FfiView::<F, D>::fresh().discovery_callbacks.contains_key(key),
        !FfiView::<F, D>::fresh().discovery_regs.contains_key(key),
        FfiView::<F, D>::fresh().next_number() == 1,
        v.next_number() == number(v.issued),
        v.issued < u64::MAX ==> v.next_number() == v.issued + 1,
        v.issued == u64::MAX ==> v.next_number() == 0,
        v.issue().issued == v.issued + 1,
        v.issue().cameras == v.cameras,
        v.issue().frames == v.frames,
        v.issue().frame_callbacks == v.frame_callbacks,
        v.issue().discovery_callbacks == v.discovery_callbacks,
        v.issue().discovery_regs == v.discovery_regs,
{
}

/// The numbers repeat with the period of `u64`: after `u64::MAX` comes zero, and then
/// they are counted from one again.
pub proof fn law_numbers_wrap_around(issued: nat)
    ensures
        number(issued + 0x1_0000_0000_0000_0000) == number(issued),
        issued == u64::MAX ==> number(issued) == 0,
        number(issued) != u64::MAX ==> number(issued + 1) == number(issued) + 1,
        number(issued) == u64::MAX ==> number(issued + 1) == 0,
{
}

} // verus!
