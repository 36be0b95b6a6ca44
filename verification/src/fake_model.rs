//! The fake runtime as contracts speak of it.

use std::sync::Arc;

use vstd::prelude::*;

use crate::callback::{DiscoveryCallback, FrameCallback};
use crate::error::VmbError;
use crate::failures::Method;
use crate::ids::number;
use crate::port::{port_state, History, PortEvent, PortState};
use crate::types::{
    CameraHandle, CameraInfo, DiscoveryCallbackId, DiscoveryRegistrationHandle, FrameCallbackId,
    FrameSlotId,
};

verus! {

/// The context of the error for a slot that is queued on a camera without a
/// live capture.
pub const QUEUED_OUTSIDE_CAPTURE: &'static str = "frame queued outside a capture";

/// A recorded call: what was called, and with what.
pub enum CallView {
    Startup,
    Shutdown,
    ListCameras,
    OpenCamera(Seq<char>),
    CloseCamera(CameraHandle),
    LoadSettings(CameraHandle, Seq<char>),
    GetFeatureInt(CameraHandle, Seq<char>),
    GetFeatureFloat(CameraHandle, Seq<char>),
    SetFeatureFloat(CameraHandle, Seq<char>, u64),
    SetFeatureEnum(CameraHandle, Seq<char>, Seq<char>),
    RunFeatureCommand(CameraHandle, Seq<char>),
    PayloadSize(CameraHandle),
    AnnounceFrame(CameraHandle, u32),
    CaptureStart(CameraHandle),
    QueueFrame(CameraHandle, FrameSlotId, FrameCallbackId),
    CaptureEnd(CameraHandle),
    CaptureQueueFlush(CameraHandle),
    FrameRevokeAll(CameraHandle),
    RegisterDiscovery(DiscoveryCallbackId),
    UnregisterDiscovery(DiscoveryRegistrationHandle),
    InstallFrameCallback(FrameCallbackId),
    UninstallFrameCallback(FrameCallbackId),
    InstallDiscoveryCallback(DiscoveryCallbackId),
    UninstallDiscoveryCallback(DiscoveryCallbackId),
}

/// What is recorded of a call: its arguments, and of an installation the ID
/// that it returned.
pub open spec fn call_of<F, D>(event: PortEvent<F, D>) -> CallView {
    match event {
        PortEvent::Startup(_) => CallView::Startup,
        PortEvent::Shutdown => CallView::Shutdown,
        PortEvent::ListCameras(_) => CallView::ListCameras,
        PortEvent::OpenCamera(id, _) => CallView::OpenCamera(id),
        PortEvent::CloseCamera(h) => CallView::CloseCamera(h),
        PortEvent::LoadSettings(h, path, _) => CallView::LoadSettings(h, path),
        PortEvent::GetFeatureInt(h, name, _) => CallView::GetFeatureInt(h, name),
        PortEvent::GetFeatureFloat(h, name, _) => CallView::GetFeatureFloat(h, name),
        PortEvent::SetFeatureFloat(h, name, bits, _) => CallView::SetFeatureFloat(h, name, bits),
        PortEvent::SetFeatureEnum(h, name, value, _) => CallView::SetFeatureEnum(h, name, value),
        PortEvent::RunFeatureCommand(h, name, _) => CallView::RunFeatureCommand(h, name),
        PortEvent::PayloadSize(h, _) => CallView::PayloadSize(h),
        PortEvent::AnnounceFrame(h, size, _) => CallView::AnnounceFrame(h, size),
        PortEvent::CaptureStart(h, _) => CallView::CaptureStart(h),
        PortEvent::QueueFrame(h, slot, cb, _) => CallView::QueueFrame(h, slot, cb),
        PortEvent::CaptureEnd(h) => CallView::CaptureEnd(h),
        PortEvent::CaptureQueueFlush(h) => CallView::CaptureQueueFlush(h),
        PortEvent::FrameRevokeAll(h) => CallView::FrameRevokeAll(h),
        PortEvent::RegisterDiscovery(cb, _) => CallView::RegisterDiscovery(cb),
        PortEvent::UnregisterDiscovery(r) => CallView::UnregisterDiscovery(r),
        PortEvent::InstallFrameCallback(_, id) => CallView::InstallFrameCallback(id),
        PortEvent::UninstallFrameCallback(id) => CallView::UninstallFrameCallback(id),
        PortEvent::InstallDiscoveryCallback(_, id) => CallView::InstallDiscoveryCallback(id),
        PortEvent::UninstallDiscoveryCallback(id) => CallView::UninstallDiscoveryCallback(id),
    }
}

/// The method of a call that can be made to fail.
pub open spec fn method_of<F, D>(event: PortEvent<F, D>) -> Option<Method> {
    match event {
        PortEvent::Startup(_) => Some(Method::Startup),
        PortEvent::ListCameras(_) => Some(Method::ListCameras),
        PortEvent::OpenCamera(_, _) => Some(Method::OpenCamera),
        PortEvent::LoadSettings(_, _, _) => Some(Method::LoadSettings),
        PortEvent::GetFeatureInt(_, _, _) => Some(Method::GetFeatureInt),
        PortEvent::GetFeatureFloat(_, _, _) => Some(Method::GetFeatureFloat),
        PortEvent::SetFeatureFloat(_, _, _, _) => Some(Method::SetFeatureFloat),
        PortEvent::SetFeatureEnum(_, _, _, _) => Some(Method::SetFeatureEnum),
        PortEvent::RunFeatureCommand(_, _, _) => Some(Method::RunFeatureCommand),
        PortEvent::PayloadSize(_, _) => Some(Method::PayloadSize),
        PortEvent::AnnounceFrame(_, _, _) => Some(Method::AnnounceFrame),
        PortEvent::CaptureStart(_, _) => Some(Method::CaptureStart),
        PortEvent::QueueFrame(_, _, _, _) => Some(Method::QueueFrame),
        PortEvent::RegisterDiscovery(_, _) => Some(Method::RegisterDiscovery),
        _ => None,
    }
}

/// The error that a call was answered with, if it failed.
pub open spec fn failure_of<F, D>(event: PortEvent<F, D>) -> Option<VmbError> {
    match event {
        PortEvent::Startup(Err(e)) => Some(e),
        PortEvent::ListCameras(Err(e)) => Some(e),
        PortEvent::OpenCamera(_, Err(e)) => Some(e),
        PortEvent::LoadSettings(_, _, Err(e)) => Some(e),
        PortEvent::GetFeatureInt(_, _, Err(e)) => Some(e),
        PortEvent::GetFeatureFloat(_, _, Err(e)) => Some(e),
        PortEvent::SetFeatureFloat(_, _, _, Err(e)) => Some(e),
        PortEvent::SetFeatureEnum(_, _, _, Err(e)) => Some(e),
        PortEvent::RunFeatureCommand(_, _, Err(e)) => Some(e),
        PortEvent::PayloadSize(_, Err(e)) => Some(e),
        PortEvent::AnnounceFrame(_, _, Err(e)) => Some(e),
        PortEvent::CaptureStart(_, Err(e)) => Some(e),
        PortEvent::QueueFrame(_, _, _, Err(e)) => Some(e),
        PortEvent::RegisterDiscovery(_, Err(e)) => Some(e),
        _ => None,
    }
}

/// The number of the identifier that a call gave out.
pub open spec fn identifier_of<F, D>(event: PortEvent<F, D>) -> Option<u64> {
    match event {
        PortEvent::OpenCamera(_, Ok(h)) => Some(h@),
        PortEvent::AnnounceFrame(_, _, Ok(slot)) => Some(slot.0),
        PortEvent::RegisterDiscovery(_, Ok(r)) => Some(r.0),
        PortEvent::InstallFrameCallback(_, id) => Some(id.0),
        PortEvent::InstallDiscoveryCallback(_, id) => Some(id.0),
        _ => None,
    }
}

/// The numbers of the identifiers that calls gave out, oldest first.
pub open spec fn identifiers_of<F, D>(events: History<F, D>) -> Seq<u64>
    decreases events.len(),
{
    if events.len() == 0 {
        Seq::empty()
    } else {
        match identifier_of(events.last()) {
            Some(n) => identifiers_of(events.drop_last()).push(n),
            None => identifiers_of(events.drop_last()),
        }
    }
}

/// How often a method was called.
pub open spec fn calls_of<F, D>(history: History<F, D>, m: Method) -> nat
    decreases history.len(),
{
    if history.len() == 0 {
        0
    } else if method_of(history.last()) == Some(m) {
        calls_of(history.drop_last(), m) + 1
    } else {
        calls_of(history.drop_last(), m)
    }
}

/// The state of the fake runtime. What its calls leave claimed is not a part of
/// it: the history says that, see [`port_state`].
#[verifier::ext_equal]
pub struct FakeView<F, D> {
    /// The calls made through the port.
    pub history: History<F, D>,
    /// Open cameras, each with its ID.
    pub cameras: Map<u64, Seq<char>>,
    /// Armed failures: for a method and the number of its calls that come
    /// before the one to fail, the error to return.
    pub failures: Map<(Method, nat), VmbError>,
    /// The answer of `list_cameras`.
    pub camera_list: Seq<CameraInfo>,
    /// The answer of `payload_size`.
    pub payload_size: u32,
    /// How many identifiers were given out. They are numbered from 1 and wrap
    /// around after `u64::MAX`.
    pub issued: nat,
}

impl<F, D> FakeView<F, D> {
    /// A fresh fake: no camera is listed, the payload size is 1024, and
    /// nothing was called, opened or armed.
    pub open spec fn fresh() -> Self {
        FakeView {
            history: Seq::empty(),
            cameras: Map::empty(),
            failures: Map::empty(),
            camera_list: Seq::empty(),
            payload_size: 1024,
            issued: 0,
        }
    }

    /// What the calls so far leave claimed.
    pub open spec fn port(self) -> PortState<F, D> {
        port_state(self.history)
    }

    /// The recorded calls, oldest first.
    pub open spec fn calls(self) -> Seq<CallView> {
        self.history.map_values(|event: PortEvent<F, D>| call_of(event))
    }

    /// The failure armed for the next call of a method.
    pub open spec fn injected(self, m: Method) -> Option<VmbError> {
        let key = (m, calls_of(self.history, m));
        if self.failures.contains_key(key) {
            Some(self.failures[key])
        } else {
            None
        }
    }

    /// Arm a failure for the call of `m` that comes after `skip` others.
    pub open spec fn armed(self, m: Method, skip: nat, e: VmbError) -> Self {
        FakeView {
            failures: self.failures.insert((m, calls_of(self.history, m) + skip), e),
            ..self
        }
    }

    /// One more call was made; a failure that was armed for it is used up.
    pub open spec fn noted(self, event: PortEvent<F, D>) -> Self {
        FakeView {
            history: self.history.push(event),
            failures: match method_of(event) {
                Some(m) => self.failures.remove((m, calls_of(self.history, m))),
                None => self.failures,
            },
            ..self
        }
    }

    /// The next identifier.
    pub open spec fn next_number(self) -> u64 {
        number(self.issued)
    }

    /// The next identifier was given out.
    pub open spec fn issue(self) -> Self {
        FakeView { issued: self.issued + 1, ..self }
    }

    /// The state after a call.
    pub open spec fn next(self, event: PortEvent<F, D>) -> Self {
        let noted = self.noted(event);
        match event {
            PortEvent::OpenCamera(id, Ok(h)) => FakeView {
                cameras: self.cameras.insert(h@, id),
                ..noted.issue()
            },
            PortEvent::CloseCamera(h) => FakeView { cameras: self.cameras.remove(h@), ..noted },
            PortEvent::AnnounceFrame(_, _, Ok(_)) => noted.issue(),
            PortEvent::RegisterDiscovery(_, Ok(_)) => noted.issue(),
            PortEvent::InstallFrameCallback(_, _) => noted.issue(),
            PortEvent::InstallDiscoveryCallback(_, _) => noted.issue(),
            _ => noted,
        }
    }

    /// A call is answered as it should be: with the injected error if there is
    /// one, otherwise with success and the given value.
    pub open spec fn answers<T>(self, m: Method, r: Result<T, VmbError>, value: T) -> bool {
        match self.injected(m) {
            Some(e) => r == Err::<T, VmbError>(e),
            None => r == Ok::<T, VmbError>(value),
        }
    }

    /// The call has the result that the fake gives it in this state.
    pub open spec fn allows(self, event: PortEvent<F, D>) -> bool {
        match event {
            PortEvent::Startup(r) => match self.injected(Method::Startup) {
                Some(e) => r == Err::<(), VmbError>(e),
                None => r == if self.port().started {
                    Err(VmbError::AlreadyStarted)
                } else {
                    Ok(())
                },
            },
            PortEvent::ListCameras(r) => self.answers(Method::ListCameras, r, self.camera_list),
            PortEvent::OpenCamera(_, r) => match self.injected(Method::OpenCamera) {
                Some(e) => r == Err::<CameraHandle, VmbError>(e),
                None => r is Ok && r->Ok_0@ == self.next_number(),
            },
            PortEvent::LoadSettings(_, _, r) => self.answers(Method::LoadSettings, r, ()),
            PortEvent::GetFeatureInt(_, _, r) => self.answers(Method::GetFeatureInt, r, 0),
            PortEvent::GetFeatureFloat(_, _, r) => self.answers(Method::GetFeatureFloat, r, 0),
            PortEvent::SetFeatureFloat(_, _, _, r) => self.answers(Method::SetFeatureFloat, r, ()),
            PortEvent::SetFeatureEnum(_, _, _, r) => self.answers(Method::SetFeatureEnum, r, ()),
            PortEvent::RunFeatureCommand(_, _, r) => self.answers(
                Method::RunFeatureCommand,
                r,
                (),
            ),
            PortEvent::PayloadSize(_, r) => self.answers(
                Method::PayloadSize,
                r,
                self.payload_size,
            ),
            PortEvent::AnnounceFrame(_, _, r) => self.answers(
                Method::AnnounceFrame,
                r,
                FrameSlotId(self.next_number()),
            ),
            PortEvent::CaptureStart(_, r) => self.answers(Method::CaptureStart, r, ()),
            PortEvent::QueueFrame(h, _, _, r) => match self.injected(Method::QueueFrame) {
                Some(e) => r == Err::<(), VmbError>(e),
                None => r == if self.port().capturing(h) {
                    Ok(())
                } else {
                    Err(VmbError::InvalidString { context: QUEUED_OUTSIDE_CAPTURE })
                },
            },
            PortEvent::RegisterDiscovery(_, r) => self.answers(
                Method::RegisterDiscovery,
                r,
                DiscoveryRegistrationHandle(self.next_number()),
            ),
            PortEvent::InstallFrameCallback(_, id) => id.0 == self.next_number(),
            PortEvent::InstallDiscoveryCallback(_, id) => id.0 == self.next_number(),
            _ => true,
        }
    }

    /// A live registration refers to the discovery callback with this ID.
    pub open spec fn registered(self, id: u64) -> bool {
        exists|r: u64| #[trigger]
            self.port().discovery_regs.contains_key(r) && self.port().discovery_regs[r].0 == id
    }

    /// The discovery callbacks that are installed and registered.
    pub open spec fn subscribed(self) -> Map<u64, Arc<DiscoveryCallback<D>>> {
        Map::new(
            |id: u64| self.port().discovery_callbacks.contains_key(id) && self.registered(id),
            |id: u64| self.port().discovery_callbacks[id],
        )
    }

    /// The callback that a frame of the camera goes to: the one that its first
    /// queued slot was queued with, if it is still installed.
    pub open spec fn frame_callback_for(self, h: CameraHandle) -> Option<Arc<FrameCallback<F>>> {
        let queue = self.port().queued(h);
        if queue.len() > 0 && self.port().frame_callbacks.contains_key(queue[0].1.0) {
            Some(self.port().frame_callbacks[queue[0].1.0])
        } else {
            None
        }
    }

    /// The handle is the lowest of the open cameras with this ID.
    pub open spec fn is_first_with_id(self, raw: u64, id: Seq<char>) -> bool {
        &&& self.cameras.contains_key(raw)
        &&& self.cameras[raw] == id
        &&& forall|other: u64| #[trigger]
            self.cameras.contains_key(other) && self.cameras[other] == id ==> raw <= other
    }
}

/// A call adds to the count of its own method only.
pub proof fn lemma_calls_of_push<F, D>(history: History<F, D>, event: PortEvent<F, D>)
    ensures
        forall|m: Method| #[trigger]
            calls_of(history.push(event), m) == calls_of(history, m) + if method_of(event) == Some(
                m,
            ) {
                1nat
            } else {
                0nat
            },
{
    assert(history.push(event).drop_last() =~= history);
}

/// No method was called more often than calls were made.
pub proof fn lemma_calls_of_bound<F, D>(history: History<F, D>, m: Method)
    ensures
        calls_of(history, m) <= history.len(),
    decreases history.len(),
{
    if history.len() > 0 {
        lemma_calls_of_bound(history.drop_last(), m);
    }
}

} // verus!
