//! What holds of the production backend across calls.

use vstd::prelude::*;

use crate::error::VmbError;
use crate::ffi::{
    flag_after_startup, shutdown_plan, startup_plan, AnnouncedFrame, FfiView, UNKNOWN_CAMERA,
    UNKNOWN_FRAME_SLOT,
};
use crate::ids::law_numbers_differ;
use crate::sdk::SdkCallView;
use crate::types::{
    CameraHandle, DiscoveryCallbackId, DiscoveryRegistrationHandle, FrameCallbackId, FrameSlotId,
};

verus! {

/// The SDK is started at most once at a time: while it is starting or started,
/// another startup is refused, whichever runtime asks; a failed startup may be
/// retried; and shutting down pairs with a successful startup only.
pub proof fn law_startup_is_exclusive(code: i32)
    ensures
        startup_plan(true) == Err::<SdkCallView, VmbError>(VmbError::AlreadyStarted),
        startup_plan(flag_after_startup(true, code)) is Err <==> code == 0,
        shutdown_plan(flag_after_startup(true, code)) is Some <==> code == 0,
        shutdown_plan(false) is None,
{
}

/// A camera that has just been opened is known by its handle. What opening and
/// closing other cameras does to it is stated by
/// [`law_other_cameras_are_undisturbed`].
pub proof fn law_opened_camera_is_known<F, D>(v: FfiView<F, D>, h: CameraHandle, camera: usize)
    ensures
        (FfiView { cameras: v.cameras.insert(h@, camera), ..v }).camera(h) == Ok::<
            usize,
            VmbError,
        >(camera),
{
}

/// A camera that has just been closed is unknown: no call reaches the SDK through its
/// handle, and closing it again needs none.
pub proof fn law_closed_camera_is_unknown<F, D>(v: FfiView<F, D>, h: CameraHandle)
    ensures
        (FfiView { cameras: v.cameras.remove(h@), ..v }).camera(h) == Err::<usize, VmbError>(
            VmbError::InvalidString { context: UNKNOWN_CAMERA },
        ),
{
}

/// Opening and closing a camera leave other cameras alone.
pub proof fn law_other_cameras_are_undisturbed<F, D>(
    v: FfiView<F, D>,
    h: CameraHandle,
    camera: usize,
    other: CameraHandle,
)
    requires
        other@ != h@,
    ensures
        (FfiView { cameras: v.cameras.insert(h@, camera), ..v }).camera(other) == v.camera(other),
        (FfiView { cameras: v.cameras.remove(h@), ..v }).camera(other) == v.camera(other),
{
}

/// An announced slot can be queued with an installed callback on an open camera.
pub proof fn law_announced_slot_can_be_queued<F, D>(
    v: FfiView<F, D>,
    h: CameraHandle,
    slot: FrameSlotId,
    frame: AnnouncedFrame,
    cb: FrameCallbackId,
)
    requires
        v.camera(h) is Ok,
        v.frame_callbacks.contains_key(cb.0),
    ensures
        (FfiView { frames: v.frames.insert(slot.0, frame), ..v }).queue_plan(h, slot, cb) == Ok::<
            SdkCallView,
            VmbError,
        >(SdkCallView::CaptureFrameQueue { camera: v.camera(h)->Ok_0, slot, callback: cb }),
{
}

/// Revoking the slots of a camera forgets them, so that right afterwards none of them
/// can be queued, and leaves the slots of other cameras as they were.
pub proof fn law_revoked_slots_are_forgotten<F, D>(
    v: FfiView<F, D>,
    h: CameraHandle,
    slot: FrameSlotId,
    on: CameraHandle,
    cb: FrameCallbackId,
)
    requires
        v.frames.contains_key(slot.0),
        v.camera(on) is Ok,
        v.frame_callbacks.contains_key(cb.0),
    ensures
        ({
            let after = FfiView { frames: v.frames_elsewhere(h), ..v };
            if v.frames[slot.0].camera == h@ {
                after.queue_plan(on, slot, cb) == Err::<SdkCallView, VmbError>(
                    VmbError::InvalidString { context: UNKNOWN_FRAME_SLOT },
                )
            } else {
                after.frames.contains_key(slot.0) && after.frames[slot.0] == v.frames[slot.0]
            }
        }),
{
}

/// A subscription is ended once: a live one takes one call, after which ending it
/// again takes none.
pub proof fn law_subscription_ends_once<F, D>(
    v: FfiView<F, D>,
    r: DiscoveryRegistrationHandle,
    cb: DiscoveryCallbackId,
)
    ensures
        (FfiView { discovery_regs: v.discovery_regs.insert(r.0, cb), ..v }).unsubscription(
            r,
        ) is Some,
        (FfiView { discovery_regs: v.discovery_regs.remove(r.0), ..v }).unsubscription(r) is None,
{
}

/// No two identifiers are the same until all `u64` values were given out.
pub proof fn law_ffi_identifiers_differ<F, D>(a: FfiView<F, D>, b: FfiView<F, D>)
    requires
        a.issued < b.issued < a.issued + 0x1_0000_0000_0000_0000,
    ensures
        a.next_number() != b.next_number(),
{
    law_numbers_differ(a.issued, b.issued);
}

} // verus!
