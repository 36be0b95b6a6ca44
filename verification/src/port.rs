//! The [`VmbRuntime`] port and the history of the calls made through it.
//!
//! `VmbRuntime` is the only trait the capture logic calls through.
//!
//! ## Ownership of user callbacks
//!
//! User closures are handed to the runtime via the `install_*_callback`
//! methods, which return opaque IDs. The IDs are later handed back in
//! operations such as [`VmbRuntime::queue_frame`]. When a capture is torn down,
//! the matching `uninstall_*_callback` lets the runtime release the closure.
//!
//! ## Call ordering
//!
//! * `startup` must be called before any other method; a failed `startup`
//!   leaves the runtime not started and may be retried.
//! * `shutdown` is infallible and tolerates being invoked without a prior
//!   successful `startup`.
//! * `close_camera`, `capture_end`, `capture_queue_flush`, `frame_revoke_all`
//!   and `unregister_discovery` are best-effort teardown calls: they do not
//!   fail and tolerate being invoked in an out-of-order state.
//! * `queue_frame` must only be called between `capture_start` and
//!   `capture_end`. The runtime is free to enforce this.
//!
//! ## History
//!
//! What callers of the port are owed is stated over its history: the sequence
//! of calls made so far, each with its arguments and its result.
//! [`port_state`] says which resources a history leaves claimed.

use std::sync::Arc;

use vstd::prelude::*;

use crate::callback::{takes_any_event, DiscoveryCallback, FrameCallback};
use crate::error::VmbError;
use crate::types::{
    CameraHandle, CameraInfo, DiscoveryCallbackId, DiscoveryEvent, DiscoveryRegistrationHandle,
    FrameCallbackId, FrameSlotId,
};

verus! {

/// One call through the port: its arguments, then its result where it has one.
/// Text is held as its characters, a float as the bits of the double.
pub enum PortEvent<F, D> {
    Startup(Result<(), VmbError>),
    Shutdown,
    ListCameras(Result<Seq<CameraInfo>, VmbError>),
    OpenCamera(Seq<char>, Result<CameraHandle, VmbError>),
    CloseCamera(CameraHandle),
    LoadSettings(CameraHandle, Seq<char>, Result<(), VmbError>),
    GetFeatureInt(CameraHandle, Seq<char>, Result<i64, VmbError>),
    GetFeatureFloat(CameraHandle, Seq<char>, Result<u64, VmbError>),
    SetFeatureFloat(CameraHandle, Seq<char>, u64, Result<(), VmbError>),
    SetFeatureEnum(CameraHandle, Seq<char>, Seq<char>, Result<(), VmbError>),
    RunFeatureCommand(CameraHandle, Seq<char>, Result<(), VmbError>),
    PayloadSize(CameraHandle, Result<u32, VmbError>),
    AnnounceFrame(CameraHandle, u32, Result<FrameSlotId, VmbError>),
    CaptureStart(CameraHandle, Result<(), VmbError>),
    QueueFrame(CameraHandle, FrameSlotId, FrameCallbackId, Result<(), VmbError>),
    CaptureEnd(CameraHandle),
    CaptureQueueFlush(CameraHandle),
    FrameRevokeAll(CameraHandle),
    RegisterDiscovery(DiscoveryCallbackId, Result<DiscoveryRegistrationHandle, VmbError>),
    UnregisterDiscovery(DiscoveryRegistrationHandle),
    InstallFrameCallback(Arc<FrameCallback<F>>, FrameCallbackId),
    UninstallFrameCallback(FrameCallbackId),
    InstallDiscoveryCallback(Arc<DiscoveryCallback<D>>, DiscoveryCallbackId),
    UninstallDiscoveryCallback(DiscoveryCallbackId),
}

/// Calls through the port, oldest first.
pub type History<F, D> = Seq<PortEvent<F, D>>;

/// What the calls made so far leave claimed.
#[verifier::ext_equal]
pub struct PortState<F, D> {
    /// A `startup` succeeded and no `shutdown` followed.
    pub started: bool,
    /// Announced frame slots, each with the camera it belongs to.
    pub announced: Map<u64, u64>,
    /// Cameras with a live capture, each with its queued slots, oldest first.
    pub active: Map<u64, Seq<(FrameSlotId, FrameCallbackId)>>,
    pub frame_callbacks: Map<u64, Arc<FrameCallback<F>>>,
    pub discovery_callbacks: Map<u64, Arc<DiscoveryCallback<D>>>,
    pub discovery_regs: Map<u64, DiscoveryCallbackId>,
}

impl<F, D> PortState<F, D> {
    /// Nothing is claimed.
    pub open spec fn initial() -> Self {
        PortState {
            started: false,
            announced: Map::empty(),
            active: Map::empty(),
            frame_callbacks: Map::empty(),
            discovery_callbacks: Map::empty(),
            discovery_regs: Map::empty(),
        }
    }

    /// The slots queued on a camera; none if it has no live capture.
    pub open spec fn queued(self, h: CameraHandle) -> Seq<(FrameSlotId, FrameCallbackId)> {
        if self.active.contains_key(h@) {
            self.active[h@]
        } else {
            Seq::empty()
        }
    }

    /// The camera has a live capture.
    pub open spec fn capturing(self, h: CameraHandle) -> bool {
        self.active.contains_key(h@)
    }

    /// No announced slot belongs to the camera.
    pub open spec fn owns_no_slot(self, h: CameraHandle) -> bool {
        forall|slot: u64| #[trigger]
            self.announced.contains_key(slot) ==> self.announced[slot] != h@
    }

    /// The slots that belong to other cameras.
    pub open spec fn announced_elsewhere(self, h: CameraHandle) -> Map<u64, u64> {
        Map::new(
            |slot: u64| self.announced.contains_key(slot) && self.announced[slot] != h@,
            |slot: u64| self.announced[slot],
        )
    }

    /// The effect of one call. A call that failed has none.
    pub open spec fn step(self, event: PortEvent<F, D>) -> Self {
        match event {
            PortEvent::Startup(Ok(())) => PortState { started: true, ..self },
            PortEvent::Shutdown => PortState { started: false, ..self },
            PortEvent::CloseCamera(h) => PortState { active: self.active.remove(h@), ..self },
            PortEvent::AnnounceFrame(h, _, Ok(slot)) => PortState {
                announced: self.announced.insert(slot.0, h@),
                ..self
            },
            PortEvent::CaptureStart(h, Ok(())) => PortState {
                active: self.active.insert(h@, self.queued(h)),
                ..self
            },
            PortEvent::QueueFrame(h, slot, cb, Ok(())) => PortState {
                active: self.active.insert(h@, self.queued(h).push((slot, cb))),
                ..self
            },
            PortEvent::CaptureEnd(h) => PortState { active: self.active.remove(h@), ..self },
            PortEvent::CaptureQueueFlush(h) => if self.capturing(h) {
                PortState { active: self.active.insert(h@, Seq::empty()), ..self }
            } else {
                self
            },
            PortEvent::FrameRevokeAll(h) => PortState {
                announced: self.announced_elsewhere(h),
                ..self
            },
            PortEvent::RegisterDiscovery(cb, Ok(r)) => PortState {
                discovery_regs: self.discovery_regs.insert(r.0, cb),
                ..self
            },
            PortEvent::UnregisterDiscovery(r) => PortState {
                discovery_regs: self.discovery_regs.remove(r.0),
                ..self
            },
            PortEvent::InstallFrameCallback(cb, id) => PortState {
                frame_callbacks: self.frame_callbacks.insert(id.0, cb),
                ..self
            },
            PortEvent::UninstallFrameCallback(id) => PortState {
                frame_callbacks: self.frame_callbacks.remove(id.0),
                ..self
            },
            PortEvent::InstallDiscoveryCallback(cb, id) => PortState {
                discovery_callbacks: self.discovery_callbacks.insert(id.0, cb),
                ..self
            },
            PortEvent::UninstallDiscoveryCallback(id) => PortState {
                discovery_callbacks: self.discovery_callbacks.remove(id.0),
                ..self
            },
            _ => self,
        }
    }
}

/// What a history leaves claimed.
pub open spec fn port_state<F, D>(history: History<F, D>) -> PortState<F, D>
    decreases history.len(),
{
    if history.len() == 0 {
        PortState::initial()
    } else {
        port_state(history.drop_last()).step(history.last())
    }
}

/// One more call adds its effect.
pub proof fn lemma_port_state_push<F, D>(history: History<F, D>, event: PortEvent<F, D>)
    ensures
        port_state(history.push(event)) == port_state(history).step(event),
{
    assert(history.push(event).drop_last() =~= history);
}

/// What contracts know of a runtime.
pub trait RuntimeModel: Sized {
    /// The type of the user's frame closures.
    type FrameFn: Send + Sync + 'static;

    /// The type of the user's discovery closures.
    type DiscoveryFn: Fn(DiscoveryEvent) + Send + Sync + 'static;

    /// What contracts know of the runtime's state.
    type Model;

    /// The runtime's own invariant.
    spec fn valid(&self) -> bool;

    /// The state of the runtime.
    spec fn model(&self) -> Self::Model;

    /// In this state the call can be made and can have this result.
    spec fn allows(
        model: Self::Model,
        event: PortEvent<Self::FrameFn, Self::DiscoveryFn>,
    ) -> bool;

    /// The state after the call.
    spec fn next(
        model: Self::Model,
        event: PortEvent<Self::FrameFn, Self::DiscoveryFn>,
    ) -> Self::Model;

    /// The calls made so far.
    spec fn history(&self) -> History<Self::FrameFn, Self::DiscoveryFn>;

    /// The frame closure can be called with any frame.
    spec fn takes_any_frame(f: Self::FrameFn) -> bool;

    /// There is a camera handle left to give out.
    spec fn can_open(&self) -> bool;
}

/// One call took the runtime from one state to the next.
pub open spec fn advanced<R: RuntimeModel>(
    before: R,
    after: R,
    event: PortEvent<R::FrameFn, R::DiscoveryFn>,
) -> bool {
    &&& after.valid()
    &&& after.history() == before.history().push(event)
    &&& R::allows(before.model(), event)
    &&& after.model() == R::next(before.model(), event)
}

/// The port through which the capture logic talks to every backend.
pub trait VmbRuntime: RuntimeModel + Send + Sync + 'static {
    // -- Lifecycle -----------------------------------------------------

    /// Start the runtime. Succeeds only while it is not started.
    fn startup(&mut self) -> (r: Result<(), VmbError>)
        requires
            old(self).valid(),
        ensures
            advanced(*old(self), *final(self), PortEvent::Startup(r)),
            r is Ok ==> !port_state(old(self).history()).started,
    ;

    /// Stop the runtime.
    fn shutdown(&mut self)
        requires
            old(self).valid(),
        ensures
            advanced(*old(self), *final(self), PortEvent::Shutdown),
    ;

    // -- Cameras -------------------------------------------------------

    /// Enumerate currently visible cameras.
    fn list_cameras(&mut self) -> (r: Result<Vec<CameraInfo>, VmbError>)
        requires
            old(self).valid(),
        ensures
            advanced(*old(self), *final(self), PortEvent::ListCameras(listed(r))),
    ;

    /// Open a camera by its transport-layer ID.
    fn open_camera(&mut self, id: &str) -> (r: Result<CameraHandle, VmbError>)
        requires
            old(self).valid(),
            old(self).can_open(),
        ensures
            advanced(*old(self), *final(self), PortEvent::OpenCamera(id@, r)),
    ;

    /// Close an opened camera. Best-effort.
    fn close_camera(&mut self, h: CameraHandle)
        requires
            old(self).valid(),
        ensures
            advanced(*old(self), *final(self), PortEvent::CloseCamera(h)),
    ;

    /// Load a settings XML, named by its path, onto an opened camera.
    fn load_settings(&mut self, h: CameraHandle, path: &str) -> (r: Result<(), VmbError>)
        requires
            old(self).valid(),
        ensures
            advanced(*old(self), *final(self), PortEvent::LoadSettings(h, path@, r)),
    ;

    /// Read an int feature of an opened camera.
    fn get_feature_int(&mut self, h: CameraHandle, name: &str) -> (r: Result<i64, VmbError>)
        requires
            old(self).valid(),
        ensures
            advanced(*old(self), *final(self), PortEvent::GetFeatureInt(h, name@, r)),
    ;

    /// Read a float feature of an opened camera, as the bits of the double.
    fn get_feature_float(&mut self, h: CameraHandle, name: &str) -> (r: Result<u64, VmbError>)
        requires
            old(self).valid(),
        ensures
            advanced(*old(self), *final(self), PortEvent::GetFeatureFloat(h, name@, r)),
    ;

    /// Set a float feature of an opened camera, from the bits of the double.
    fn set_feature_float(&mut self, h: CameraHandle, name: &str, bits: u64) -> (r: Result<
        (),
        VmbError,
    >)
        requires
            old(self).valid(),
        ensures
            advanced(*old(self), *final(self), PortEvent::SetFeatureFloat(h, name@, bits, r)),
    ;

    /// Set an enum feature of an opened camera.
    fn set_feature_enum(&mut self, h: CameraHandle, name: &str, value: &str) -> (r: Result<
        (),
        VmbError,
    >)
        requires
            old(self).valid(),
        ensures
            advanced(*old(self), *final(self), PortEvent::SetFeatureEnum(h, name@, value@, r)),
    ;

    /// Run a feature command (e.g. `"AcquisitionStart"`).
    fn run_feature_command(&mut self, h: CameraHandle, name: &str) -> (r: Result<(), VmbError>)
        requires
            old(self).valid(),
        ensures
            advanced(*old(self), *final(self), PortEvent::RunFeatureCommand(h, name@, r)),
    ;

    // -- Capture -------------------------------------------------------

    /// Query the frame buffer size an opened camera needs.
    fn payload_size(&mut self, h: CameraHandle) -> (r: Result<u32, VmbError>)
        requires
            old(self).valid(),
        ensures
            advanced(*old(self), *final(self), PortEvent::PayloadSize(h, r)),
    ;

    /// Announce a frame slot of `size` bytes.
    fn announce_frame(&mut self, h: CameraHandle, size: u32) -> (r: Result<FrameSlotId, VmbError>)
        requires
            old(self).valid(),
        ensures
            advanced(*old(self), *final(self), PortEvent::AnnounceFrame(h, size, r)),
    ;

    /// Begin a capture session. Must be paired with `capture_end`.
    fn capture_start(&mut self, h: CameraHandle) -> (r: Result<(), VmbError>)
        requires
            old(self).valid(),
        ensures
            advanced(*old(self), *final(self), PortEvent::CaptureStart(h, r)),
    ;

    /// Hand an announced frame slot to the runtime and associate it with a
    /// previously installed frame callback. The runtime invokes the callback
    /// for every completed frame received into the slot.
    fn queue_frame(&mut self, h: CameraHandle, slot: FrameSlotId, cb: FrameCallbackId) -> (r:
        Result<(), VmbError>)
        requires
            old(self).valid(),
        ensures
            advanced(*old(self), *final(self), PortEvent::QueueFrame(h, slot, cb, r)),
    ;

    /// End a capture session. Best-effort.
    fn capture_end(&mut self, h: CameraHandle)
        requires
            old(self).valid(),
        ensures
            advanced(*old(self), *final(self), PortEvent::CaptureEnd(h)),
    ;

    /// Flush the frame queue of a camera. Best-effort.
    fn capture_queue_flush(&mut self, h: CameraHandle)
        requires
            old(self).valid(),
        ensures
            advanced(*old(self), *final(self), PortEvent::CaptureQueueFlush(h)),
    ;

    /// Revoke every announced frame slot of a camera. Best-effort.
    fn frame_revoke_all(&mut self, h: CameraHandle)
        requires
            old(self).valid(),
        ensures
            advanced(*old(self), *final(self), PortEvent::FrameRevokeAll(h)),
    ;

    // -- Discovery -----------------------------------------------------

    /// Register a discovery subscription for the previously installed
    /// callback `cb`.
    fn register_discovery(&mut self, cb: DiscoveryCallbackId) -> (r: Result<
        DiscoveryRegistrationHandle,
        VmbError,
    >)
        requires
            old(self).valid(),
        ensures
            advanced(*old(self), *final(self), PortEvent::RegisterDiscovery(cb, r)),
    ;

    /// Tear down a discovery subscription. Best-effort.
    fn unregister_discovery(&mut self, r: DiscoveryRegistrationHandle)
        requires
            old(self).valid(),
        ensures
            advanced(*old(self), *final(self), PortEvent::UnregisterDiscovery(r)),
    ;

    // -- Callback installation -----------------------------------------

    /// Install a frame callback and return its ID.
    fn install_frame_callback(&mut self, cb: Arc<FrameCallback<Self::FrameFn>>) -> (id:
        FrameCallbackId)
        requires
            old(self).valid(),
            Self::takes_any_frame(cb.closure()),
        ensures
            advanced(*old(self), *final(self), PortEvent::InstallFrameCallback(cb, id)),
    ;

    /// Uninstall a frame callback. Best-effort.
    fn uninstall_frame_callback(&mut self, id: FrameCallbackId)
        requires
            old(self).valid(),
        ensures
            advanced(*old(self), *final(self), PortEvent::UninstallFrameCallback(id)),
    ;

    /// Install a discovery callback and return its ID.
    fn install_discovery_callback(
        &mut self,
        cb: Arc<DiscoveryCallback<Self::DiscoveryFn>>,
    ) -> (id: DiscoveryCallbackId)
        requires
            old(self).valid(),
            takes_any_event(cb.closure()),
        ensures
            advanced(*old(self), *final(self), PortEvent::InstallDiscoveryCallback(cb, id)),
    ;

    /// Uninstall a discovery callback. Best-effort.
    fn uninstall_discovery_callback(&mut self, id: DiscoveryCallbackId)
        requires
            old(self).valid(),
        ensures
            advanced(*old(self), *final(self), PortEvent::UninstallDiscoveryCallback(id)),
    ;
}

/// The state after some calls.
pub open spec fn model_after<R: RuntimeModel>(
    model: R::Model,
    events: History<R::FrameFn, R::DiscoveryFn>,
) -> R::Model
    decreases events.len(),
{
    if events.len() == 0 {
        model
    } else {
        R::next(model_after::<R>(model, events.drop_last()), events.last())
    }
}

/// Each of the calls can be made, and can have its result, in the state that
/// those before it lead to.
pub open spec fn all_allowed<R: RuntimeModel>(
    model: R::Model,
    events: History<R::FrameFn, R::DiscoveryFn>,
) -> bool
    decreases events.len(),
{
    events.len() == 0 || {
        &&& all_allowed::<R>(model, events.drop_last())
        &&& R::allows(model_after::<R>(model, events.drop_last()), events.last())
    }
}

/// The calls between two histories.
pub open spec fn since<F, D>(
    before: History<F, D>,
    after: History<F, D>,
) -> History<F, D> {
    after.skip(before.len() as int)
}

/// The runtime came from one state to another by the calls in between alone.
pub open spec fn went<R: RuntimeModel>(before: R, after: R) -> bool {
    &&& after.valid()
    &&& before.history().len() <= after.history().len()
    &&& after.history().take(before.history().len() as int) == before.history()
    &&& all_allowed::<R>(before.model(), since(before.history(), after.history()))
    &&& after.model() == model_after::<R>(
        before.model(),
        since(before.history(), after.history()),
    )
}

/// No call leaves the runtime where it was.
pub proof fn lemma_went_nowhere<R: RuntimeModel>(runtime: R)
    requires
        runtime.valid(),
    ensures
        went(runtime, runtime),
{
    let h = runtime.history();
    assert(h.take(h.len() as int) =~= h);
}

/// One more call extends the way.
pub proof fn lemma_went_further<R: RuntimeModel>(
    start: R,
    before: R,
    after: R,
    event: PortEvent<R::FrameFn, R::DiscoveryFn>,
)
    requires
        went(start, before),
        advanced(before, after, event),
    ensures
        went(start, after),
{
    let n = start.history().len() as int;
    assert(after.history().take(n) =~= before.history().take(n));
    assert(after.history().skip(n) =~= before.history().skip(n).push(event));
    assert(after.history().skip(n).drop_last() =~= before.history().skip(n));
}

/// A list of cameras as the history holds it.
pub open spec fn listed(r: Result<Vec<CameraInfo>, VmbError>) -> Result<
    Seq<CameraInfo>,
    VmbError,
> {
    match r {
        Ok(cameras) => Ok(cameras@),
        Err(e) => Err(e),
    }
}

} // verus!
