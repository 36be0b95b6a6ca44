//! The bookkeeping of the production backend.
//!
//! [`VmbFfiRuntime`] decides; it makes no call itself. An operation that needs
//! the SDK comes in two parts. The first, which bears the name of the operation,
//! checks its arguments and says which [`SdkCall`] to make. The caller makes it
//! and hands the return code to the second part, whose name ends in `_done`, or
//! to [`reply`] and [`check`] where nothing but the code matters.

use std::collections::HashMap;
use std::sync::Arc;

use vstd::prelude::*;

use crate::callback::{DiscoveryCallback, FrameCallback};
use crate::error::{check, checked, VmbError};
use crate::ids::{at_most, number, IdCounter};
use crate::sdk::{optional, planned, CText, SdkCall, SdkCallView};
use crate::types::{
    CameraHandle, CameraInfo, DiscoveryCallbackId, DiscoveryRegistrationHandle, FrameCallbackId,
    FrameSlotId,
};

verus! {

broadcast use vstd::std_specs::hash::group_hash_axioms;

/// The system-wide feature that changes when a camera comes or goes.
pub const FEATURE_EVENT_CAMERA_DISCOVERY: &'static str = "EventCameraDiscovery";

/// What stands for a description that the SDK does not give.
pub const UNKNOWN: &'static str = "<unknown>";

pub const UNKNOWN_CAMERA: &'static str = "unknown camera handle";

pub const UNKNOWN_FRAME_CALLBACK: &'static str = "unknown frame callback id";

pub const UNKNOWN_FRAME_SLOT: &'static str = "unknown frame slot id";

pub const UNKNOWN_DISCOVERY_CALLBACK: &'static str = "unknown discovery callback id";

/// Whether the SDK is started. The SDK is a process-wide singleton, so all
/// runtimes of a process share one flag.
pub struct StartedFlag {
    started: bool,
}

impl View for StartedFlag {
    type V = bool;

    closed spec fn view(&self) -> bool {
        self.started
    }
}

impl StartedFlag {
    /// The SDK is not started.
    pub fn new() -> (flag: Self)
        ensures
            !flag@,
    {
        StartedFlag { started: false }
    }
}

/// What the SDK says of a camera; `None` where it gives no description.
#[derive(Debug, PartialEq, Eq)]
pub struct RawCameraInfo {
    pub id: Option<String>,
    pub model: Option<String>,
    pub serial: Option<String>,
    pub name: Option<String>,
}

/// A description as it is shown.
pub open spec fn shown(text: Option<String>) -> Seq<char> {
    match text {
        Some(s) => s@,
        None => UNKNOWN@,
    }
}

/// The camera is described as the SDK does.
pub open spec fn describes(info: CameraInfo, raw: RawCameraInfo) -> bool {
    &&& info.id@ == shown(raw.id)
    &&& info.model@ == shown(raw.model)
    &&& info.serial@ == shown(raw.serial)
    &&& info.name@ == shown(raw.name)
}

fn shown_or_unknown(text: &Option<String>) -> (s: String)
    ensures
        s@ == shown(*text),
{
    match text {
        Some(s) => s.clone(),
        None => UNKNOWN.to_owned(),
    }
}

/// How a listing goes on once the cameras are counted.
#[derive(Debug, PartialEq, Eq)]
pub enum CameraQuery {
    /// There is no camera to list.
    Empty,
    /// Fetch the cameras with this call.
    Fetch(SdkCall),
}

/// An announced frame buffer.
#[derive(Debug, Clone, Copy, PartialEq, Eq, Structural)]
pub struct AnnouncedFrame {
    /// The number of the camera handle it was announced for.
    pub camera: u64,
    pub size: u32,
    /// The callback it was last queued with; until then frames are dropped.
    pub callback: Option<FrameCallbackId>,
}

/// The value that came with a return code, if the code says success.
pub fn reply<T>(code: i32, value: T) -> (r: Result<T, VmbError>)
    ensures
        r == match checked(code) {
            Ok(()) => Ok::<T, VmbError>(value),
            Err(e) => Err(e),
        },
{
    match check(code) {
        Ok(()) => Ok(value),
        Err(e) => Err(e),
    }
}

/// The state of the production backend.
#[verifier::ext_equal]
pub struct FfiView<F, D> {
    /// Open cameras, each with the SDK's handle.
    pub cameras: Map<u64, usize>,
    /// Announced frame slots.
    pub frames: Map<u64, AnnouncedFrame>,
    pub frame_callbacks: Map<u64, Arc<FrameCallback<F>>>,
    pub discovery_callbacks: Map<u64, Arc<DiscoveryCallback<D>>>,
    /// Live discovery subscriptions, each with its callback.
    pub discovery_regs: Map<u64, DiscoveryCallbackId>,
    /// How many identifiers were given out. They are numbered from 1 and wrap
    /// around after `u64::MAX`.
    pub issued: nat,
}

impl<F, D> FfiView<F, D> {
    pub open spec fn fresh() -> Self {
        FfiView {
            cameras: Map::empty(),
            frames: Map::empty(),
            frame_callbacks: Map::empty(),
            discovery_callbacks: Map::empty(),
            discovery_regs: Map::empty(),
            issued: 0,
        }
    }

    /// The next identifier.
    pub open spec fn next_number(self) -> u64 {
        number(self.issued)
    }

    /// The next identifier was given out.
    pub open spec fn issue(self) -> Self {
        FfiView { issued: self.issued + 1, ..self }
    }

    /// The SDK's handle of a camera.
    pub open spec fn camera(self, h: CameraHandle) -> Result<usize, VmbError> {
        if self.cameras.contains_key(h@) {
            Ok(self.cameras[h@])
        } else {
            Err(VmbError::InvalidString { context: UNKNOWN_CAMERA })
        }
    }

    /// The call that queues a slot: the camera, the callback and the slot must
    /// all be known.
    pub open spec fn queue_plan(
        self,
        h: CameraHandle,
        slot: FrameSlotId,
        cb: FrameCallbackId,
    ) -> Result<SdkCallView, VmbError> {
        match self.camera(h) {
            Err(e) => Err(e),
            Ok(camera) => if !self.frame_callbacks.contains_key(cb.0) {
                Err(VmbError::InvalidString { context: UNKNOWN_FRAME_CALLBACK })
            } else if !self.frames.contains_key(slot.0) {
                Err(VmbError::InvalidString { context: UNKNOWN_FRAME_SLOT })
            } else {
                Ok(SdkCallView::CaptureFrameQueue { camera, slot, callback: cb })
            },
        }
    }

    /// The call that ends a subscription, if it is live.
    pub open spec fn unsubscription(self, r: DiscoveryRegistrationHandle) -> Option<SdkCallView> {
        if self.discovery_regs.contains_key(r.0) {
            Some(
                SdkCallView::InvalidationUnregister {
                    feature: FEATURE_EVENT_CAMERA_DISCOVERY@,
                    registration: r,
                },
            )
        } else {
            None
        }
    }

    /// The frames that were announced for other cameras.
    pub open spec fn frames_elsewhere(self, h: CameraHandle) -> Map<u64, AnnouncedFrame> {
        Map::new(
            |slot: u64| self.frames.contains_key(slot) && self.frames[slot].camera != h@,
            |slot: u64| self.frames[slot],
        )
    }
}

/// The call that starts the SDK, unless it is started already.
pub open spec fn startup_plan(started: bool) -> Result<SdkCallView, VmbError> {
    if started {
        Err(VmbError::AlreadyStarted)
    } else {
        Ok(SdkCallView::Startup)
    }
}

/// The flag once the SDK has answered the startup call.
pub open spec fn flag_after_startup(started: bool, code: i32) -> bool {
    started && checked(code) is Ok
}

/// The call that stops the SDK, if it is started.
pub open spec fn shutdown_plan(started: bool) -> Option<SdkCallView> {
    if started {
        Some(SdkCallView::Shutdown)
    } else {
        None
    }
}

/// The text as the SDK gets it, or the error that it cannot be handed over.
pub open spec fn as_c_text(text: Seq<char>, context: &'static str) -> Result<Seq<char>, VmbError> {
    if text.contains('\0') {
        Err(VmbError::InvalidString { context })
    } else {
        Ok(text)
    }
}

/// Bookkeeping of the adapter to the SDK.
///
/// `F` and `D` are the types of the frame and discovery closures it stores.
pub struct VmbFfiRuntime<F, D> {
    cameras: HashMap<u64, usize>,
    frames: HashMap<u64, AnnouncedFrame>,
    frame_callbacks: HashMap<u64, Arc<FrameCallback<F>>>,
    discovery_callbacks: HashMap<u64, Arc<DiscoveryCallback<D>>>,
    discovery_regs: HashMap<u64, DiscoveryCallbackId>,
    counter: IdCounter,
}

impl<F, D> View for VmbFfiRuntime<F, D> {
    type V = FfiView<F, D>;

    closed spec fn view(&self) -> FfiView<F, D> {
        FfiView {
            cameras: self.cameras@,
            frames: self.frames@,
            frame_callbacks: self.frame_callbacks@,
            discovery_callbacks: self.discovery_callbacks@,
            discovery_regs: self.discovery_regs@,
            issued: self.counter@,
        }
    }
}

spec fn among(keys: Seq<&u64>, k: u64) -> bool {
    exists|i: int| 0 <= i < keys.len() && *#[trigger] keys[i] == k
}

/// A longer prefix of distinct keys holds what a shorter one does, and its last
/// key is new.
proof fn lemma_among_grows(keys: Seq<&u64>, n: int)
    requires
        0 <= n < keys.len(),
        keys.no_duplicates(),
    ensures
        forall|k: u64| #[trigger] among(keys.take(n), k) ==> among(keys.take(n + 1), k),
        among(keys.take(n + 1), *keys[n]),
        !among(keys.take(n), *keys[n]),
{
    assert(keys.take(n + 1)[n] == keys[n]);
    assert forall|k: u64| #[trigger] among(keys.take(n), k) implies among(keys.take(n + 1), k) by {
        let i = choose|i: int| 0 <= i < n && *#[trigger] keys.take(n)[i] == k;
        assert(keys.take(n + 1)[i] == keys.take(n)[i]);
    }
}

impl<F, D> VmbFfiRuntime<F, D> {
    /// Until the counter wraps around, every identifier in use is among those that
    /// were given out.
    pub closed spec fn wf(&self) -> bool {
        self.counter@ < u64::MAX ==> {
            &&& at_most(self.cameras@, self.counter@)
            &&& at_most(self.frames@, self.counter@)
            &&& at_most(self.frame_callbacks@, self.counter@)
            &&& at_most(self.discovery_callbacks@, self.counter@)
            &&& at_most(self.discovery_regs@, self.counter@)
        }
    }

    /// Construct a runtime once the SDK's shared library was looked for:
    /// `loaded` says with what message that failed, if it did. Construction does
    /// not start the SDK.
    pub fn new(loaded: Result<(), String>) -> (r: Result<Self, VmbError>)
        ensures
            match loaded {
                Ok(()) => r is Ok && r->Ok_0.wf() && r->Ok_0@ == FfiView::<F, D>::fresh(),
                Err(message) => r == Err::<Self, VmbError>(VmbError::LoadFailed { message }),
            },
    {
        match loaded {
            Ok(()) => Ok(Self::with_api()),
            Err(message) => Err(VmbError::LoadFailed { message }),
        }
    }

    /// Construct a runtime around a library that the caller has loaded.
    pub fn with_api() -> (runtime: Self)
        ensures
            runtime.wf(),
            runtime@ == FfiView::<F, D>::fresh(),
    {
        VmbFfiRuntime {
            cameras: HashMap::new(),
            frames: HashMap::new(),
            frame_callbacks: HashMap::new(),
            discovery_callbacks: HashMap::new(),
            discovery_regs: HashMap::new(),
            counter: IdCounter::new(),
        }
    }

    fn next_u64(&mut self) -> (n: u64)
        requires
            old(self).wf(),
        ensures
            final(self).wf(),
            n == old(self)@.next_number(),
            final(self)@ == old(self)@.issue(),
            old(self)@.issued < u64::MAX ==> n == old(self)@.issued + 1,
            *final(self) == (VmbFfiRuntime {
                counter: final(self).counter,
                ..*old(self)
            }),
    {
        self.counter.next_u64()
    }

    /// Whether there is a camera handle left to give out.
    pub fn can_issue_handle(&self) -> (left: bool)
        requires
            self.wf(),
        ensures
            left == (self@.next_number() != 0),
    {
        self.counter.has_id()
    }

    /// Look up the SDK's handle of a camera.
    fn resolve_camera(&self, h: CameraHandle) -> (r: Result<usize, VmbError>)
        ensures
            r == self@.camera(h),
    {
        match self.cameras.get(&h.get()) {
            Some(raw) => Ok(*raw),
            None => Err(VmbError::InvalidString { context: UNKNOWN_CAMERA }),
        }
    }

    // --- Lifecycle ----------------------------------------------------

    /// Start the SDK, unless it is started already. The flag is claimed before
    /// the call is made.
    pub fn startup(&self, flag: &mut StartedFlag) -> (r: Result<SdkCall, VmbError>)
        ensures
            final(flag)@,
            planned(r) == startup_plan(old(flag)@),
    {
        if flag.started {
            return Err(VmbError::AlreadyStarted);
        }
        flag.started = true;
        Ok(SdkCall::Startup)
    }

    /// The SDK answered the startup call. A failure gives the flag back, so that
    /// startup may be retried.
    pub fn startup_done(&self, flag: &mut StartedFlag, code: i32) -> (r: Result<(), VmbError>)
        ensures
            r == checked(code),
            final(flag)@ == flag_after_startup(old(flag)@, code),
    {
        match check(code) {
            Ok(()) => Ok(()),
            Err(e) => {
                flag.started = false;
                Err(e)
            },
        }
    }

    /// Stop the SDK, if it is started.
    pub fn shutdown(&self, flag: &mut StartedFlag) -> (call: Option<SdkCall>)
        ensures
            !final(flag)@,
            optional(call) == shutdown_plan(old(flag)@),
    {
        let was_started = flag.started;
        flag.started = false;
        if was_started {
            Some(SdkCall::Shutdown)
        } else {
            None
        }
    }

    // --- Cameras ------------------------------------------------------

    /// Enumerate cameras. First they are counted.
    pub fn list_cameras(&self) -> (call: SdkCall)
        ensures
            call@ == (SdkCallView::CamerasList { capacity: 0 }),
    {
        SdkCall::CamerasList { capacity: 0 }
    }

    /// The cameras are counted: fetch as many as there are.
    pub fn list_cameras_counted(&self, code: i32, count: u32) -> (r: Result<CameraQuery, VmbError>)
        ensures
            match checked(code) {
                Err(e) => r == Err::<CameraQuery, VmbError>(e),
                Ok(()) => match r {
                    Ok(CameraQuery::Empty) => count == 0,
                    Ok(CameraQuery::Fetch(call)) => {
                        &&& count != 0
                        &&& call@ == (SdkCallView::CamerasList { capacity: count })
                    },
                    Err(_) => false,
                },
            },
    {
        match check(code) {
            Err(e) => Err(e),
            Ok(()) => {
                if count == 0 {
                    Ok(CameraQuery::Empty)
                } else {
                    Ok(CameraQuery::Fetch(SdkCall::CamerasList { capacity: count }))
                }
            },
        }
    }

    /// The cameras are fetched: the first `found` of the entries are filled.
    pub fn list_cameras_done(
        &self,
        code: i32,
        entries: Vec<RawCameraInfo>,
        found: u32,
    ) -> (r: Result<Vec<CameraInfo>, VmbError>)
        ensures
            match checked(code) {
                Err(e) => r == Err::<Vec<CameraInfo>, VmbError>(e),
                Ok(()) => {
                    &&& r is Ok
                    &&& r->Ok_0@.len() == if found < entries@.len() {
                        found as nat
                    } else {
                        entries@.len()
                    }
                    &&& forall|i: int|
                        0 <= i < r->Ok_0@.len() ==> describes(#[trigger] r->Ok_0@[i], entries@[i])
                    &&& forall|i: int|
                        0 <= i < r->Ok_0@.len() ==> {
                            let info = #[trigger] r->Ok_0@[i];
                            &&& entries@[i].id matches Some(s) ==> info.id@ == s@
                            &&& entries@[i].model matches Some(s) ==> info.model@ == s@
                            &&& entries@[i].serial matches Some(s) ==> info.serial@ == s@
                            &&& entries@[i].name matches Some(s) ==> info.name@ == s@
                        }
                },
            },
    {
        match check(code) {
            Err(e) => {
                return Err(e);
            },
            Ok(()) => {},
        }
        let mut raws = entries;
        raws.truncate(found as usize);
        let mut infos: Vec<CameraInfo> = Vec::new();
        let mut i: usize = 0;
        while i < raws.len()
            invariant
                i <= raws@.len(),
                infos@.len() == i,
                forall|j: int| 0 <= j < i ==> describes(#[trigger] infos@[j], raws@[j]),
            decreases raws@.len() - i,
        {
            let raw = &raws[i];
            infos.push(
                CameraInfo {
                    id: shown_or_unknown(&raw.id),
                    model: shown_or_unknown(&raw.model),
                    serial: shown_or_unknown(&raw.serial),
                    name: shown_or_unknown(&raw.name),
                },
            );
            i = i + 1;
        }
        Ok(infos)
    }

    /// Open a camera by its transport-layer ID.
    pub fn open_camera(&self, id: &str) -> (r: Result<SdkCall, VmbError>)
        ensures
            planned(r) == match as_c_text(id@, "camera_id") {
                Err(e) => Err::<SdkCallView, VmbError>(e),
                Ok(id) => Ok(SdkCallView::CameraOpen { id }),
            },
    {
        let id = CText::new(id, "camera_id")?;
        Ok(SdkCall::CameraOpen { id })
    }

    /// The SDK answered, with its handle for the camera if it was opened.
    pub fn open_camera_done(&mut self, code: i32, camera: usize) -> (r: Result<
        CameraHandle,
        VmbError,
    >)
        requires
            old(self).wf(),
            code == 0 ==> old(self)@.next_number() != 0,
        ensures
            final(self).wf(),
            match checked(code) {
                Err(e) => r == Err::<CameraHandle, VmbError>(e) && final(self)@ == old(self)@,
                Ok(()) => {
                    &&& r is Ok
                    &&& r->Ok_0@ == old(self)@.next_number()
                    &&& old(self)@.issued < u64::MAX ==> !old(self)@.cameras.contains_key(
                        r->Ok_0@,
                    )
                    &&& final(self)@ == (FfiView {
                        cameras: old(self)@.cameras.insert(r->Ok_0@, camera),
                        ..old(self)@.issue()
                    })
                },
            },
    {
        match check(code) {
            Err(e) => {
                return Err(e);
            },
            Ok(()) => {},
        }
        let handle = CameraHandle::new(self.next_u64());
        self.cameras.insert(handle.get(), camera);
        Ok(handle)
    }

    /// Close a camera. One that is not open needs no call.
    pub fn close_camera(&mut self, h: CameraHandle) -> (call: Option<SdkCall>)
        requires
            old(self).wf(),
        ensures
            final(self).wf(),
            final(self)@ == (FfiView { cameras: old(self)@.cameras.remove(h@), ..old(self)@ }),
            optional(call) == match old(self)@.camera(h) {
                Ok(camera) => Some(SdkCallView::CameraClose { camera }),
                Err(_) => None,
            },
    {
        match self.cameras.remove(&h.get()) {
            Some(camera) => Some(SdkCall::CameraClose { camera }),
            None => {
                assert(self@.cameras =~= old(self)@.cameras.remove(h@));
                None
            },
        }
    }

    /// Load a settings XML, named by its path.
    pub fn load_settings(&self, h: CameraHandle, path: &str) -> (r: Result<SdkCall, VmbError>)
        ensures
            planned(r) == match self@.camera(h) {
                Err(e) => Err::<SdkCallView, VmbError>(e),
                Ok(camera) => match as_c_text(path@, "settings_xml path") {
                    Err(e) => Err::<SdkCallView, VmbError>(e),
                    Ok(path) => Ok(SdkCallView::SettingsLoad { camera, path }),
                },
            },
    {
        let camera = self.resolve_camera(h)?;
        let path = CText::new(path, "settings_xml path")?;
        Ok(SdkCall::SettingsLoad { camera, path })
    }

    /// Read an int feature.
    pub fn get_feature_int(&self, h: CameraHandle, name: &str) -> (r: Result<SdkCall, VmbError>)
        ensures
            planned(r) == match self@.camera(h) {
                Err(e) => Err::<SdkCallView, VmbError>(e),
                Ok(camera) => match as_c_text(name@, "feature_int_get") {
                    Err(e) => Err::<SdkCallView, VmbError>(e),
                    Ok(name) => Ok(SdkCallView::FeatureIntGet { camera, name }),
                },
            },
    {
        let camera = self.resolve_camera(h)?;
        let name = CText::new(name, "feature_int_get")?;
        Ok(SdkCall::FeatureIntGet { camera, name })
    }

    /// Read a float feature.
    pub fn get_feature_float(&self, h: CameraHandle, name: &str) -> (r: Result<SdkCall, VmbError>)
        ensures
            planned(r) == match self@.camera(h) {
                Err(e) => Err::<SdkCallView, VmbError>(e),
                Ok(camera) => match as_c_text(name@, "feature_float_get") {
                    Err(e) => Err::<SdkCallView, VmbError>(e),
                    Ok(name) => Ok(SdkCallView::FeatureFloatGet { camera, name }),
                },
            },
    {
        let camera = self.resolve_camera(h)?;
        let name = CText::new(name, "feature_float_get")?;
        Ok(SdkCall::FeatureFloatGet { camera, name })
    }

    /// Set a float feature, from the bits of the double.
    pub fn set_feature_float(&self, h: CameraHandle, name: &str, bits: u64) -> (r: Result<
        SdkCall,
        VmbError,
    >)
        ensures
            planned(r) == match self@.camera(h) {
                Err(e) => Err::<SdkCallView, VmbError>(e),
                Ok(camera) => match as_c_text(name@, "feature_float_set") {
                    Err(e) => Err::<SdkCallView, VmbError>(e),
                    Ok(name) => Ok(SdkCallView::FeatureFloatSet { camera, name, bits }),
                },
            },
    {
        let camera = self.resolve_camera(h)?;
        let name = CText::new(name, "feature_float_set")?;
        Ok(SdkCall::FeatureFloatSet { camera, name, bits })
    }

    /// Set an enum feature.
    pub fn set_feature_enum(&self, h: CameraHandle, name: &str, value: &str) -> (r: Result<
        SdkCall,
        VmbError,
    >)
        ensures
            planned(r) == match self@.camera(h) {
                Err(e) => Err::<SdkCallView, VmbError>(e),
                Ok(camera) => match as_c_text(name@, "feature_enum_set_name") {
                    Err(e) => Err::<SdkCallView, VmbError>(e),
                    Ok(name) => match as_c_text(value@, "feature_enum_set_value") {
                        Err(e) => Err::<SdkCallView, VmbError>(e),
                        Ok(value) => Ok(SdkCallView::FeatureEnumSet { camera, name, value }),
                    },
                },
            },
    {
        let camera = self.resolve_camera(h)?;
        let name = CText::new(name, "feature_enum_set_name")?;
        let value = CText::new(value, "feature_enum_set_value")?;
        Ok(SdkCall::FeatureEnumSet { camera, name, value })
    }

    /// Run a feature command.
    pub fn run_feature_command(&self, h: CameraHandle, name: &str) -> (r: Result<SdkCall, VmbError>)
        ensures
            planned(r) == match self@.camera(h) {
                Err(e) => Err::<SdkCallView, VmbError>(e),
                Ok(camera) => match as_c_text(name@, "feature_command") {
                    Err(e) => Err::<SdkCallView, VmbError>(e),
                    Ok(name) => Ok(SdkCallView::FeatureCommandRun { camera, name }),
                },
            },
    {
        let camera = self.resolve_camera(h)?;
        let name = CText::new(name, "feature_command")?;
        Ok(SdkCall::FeatureCommandRun { camera, name })
    }

    // --- Capture ------------------------------------------------------

    /// Query the frame buffer size.
    pub fn payload_size(&self, h: CameraHandle) -> (r: Result<SdkCall, VmbError>)
        ensures
            planned(r) == match self@.camera(h) {
                Err(e) => Err::<SdkCallView, VmbError>(e),
                Ok(camera) => Ok(SdkCallView::PayloadSizeGet { camera }),
            },
    {
        let camera = self.resolve_camera(h)?;
        Ok(SdkCall::PayloadSizeGet { camera })
    }

    /// Announce a frame buffer of `size` bytes.
    pub fn announce_frame(&self, h: CameraHandle, size: u32) -> (r: Result<SdkCall, VmbError>)
        ensures
            planned(r) == match self@.camera(h) {
                Err(e) => Err::<SdkCallView, VmbError>(e),
                Ok(camera) => Ok(SdkCallView::FrameAnnounce { camera, size }),
            },
    {
        let camera = self.resolve_camera(h)?;
        Ok(SdkCall::FrameAnnounce { camera, size })
    }

    /// The SDK answered: if it took the buffer, the buffer gets a slot.
    pub fn announce_frame_done(&mut self, h: CameraHandle, size: u32, code: i32) -> (r: Result<
        FrameSlotId,
        VmbError,
    >)
        requires
            old(self).wf(),
        ensures
            final(self).wf(),
            match checked(code) {
                Err(e) => r == Err::<FrameSlotId, VmbError>(e) && final(self)@ == old(self)@,
                Ok(()) => {
                    let slot = FrameSlotId(old(self)@.next_number());
                    &&& r == Ok::<FrameSlotId, VmbError>(slot)
                    &&& old(self)@.issued < u64::MAX ==> !old(self)@.frames.contains_key(slot.0)
                    &&& final(self)@ == (FfiView {
                        frames: old(self)@.frames.insert(
                            slot.0,
                            AnnouncedFrame { camera: h@, size, callback: None },
                        ),
                        ..old(self)@.issue()
                    })
                },
            },
    {
        match check(code) {
            Err(e) => {
                return Err(e);
            },
            Ok(()) => {},
        }
        let slot = FrameSlotId(self.next_u64());
        self.frames.insert(slot.0, AnnouncedFrame { camera: h.get(), size, callback: None });
        Ok(slot)
    }

    /// Begin a capture session.
    pub fn capture_start(&self, h: CameraHandle) -> (r: Result<SdkCall, VmbError>)
        ensures
            planned(r) == match self@.camera(h) {
                Err(e) => Err::<SdkCallView, VmbError>(e),
                Ok(camera) => Ok(SdkCallView::CaptureStart { camera }),
            },
    {
        let camera = self.resolve_camera(h)?;
        Ok(SdkCall::CaptureStart { camera })
    }

    /// Queue an announced buffer with an installed callback. The buffer keeps the
    /// callback whatever the SDK answers.
    pub fn queue_frame(&mut self, h: CameraHandle, slot: FrameSlotId, cb: FrameCallbackId) -> (r:
        Result<SdkCall, VmbError>)
        requires
            old(self).wf(),
        ensures
            final(self).wf(),
            planned(r) == old(self)@.queue_plan(h, slot, cb),
            r is Err ==> final(self)@ == old(self)@,
            r is Ok ==> final(self)@ == (FfiView {
                frames: old(self)@.frames.insert(
                    slot.0,
                    AnnouncedFrame { callback: Some(cb), ..old(self)@.frames[slot.0] },
                ),
                ..old(self)@
            }),
    {
        let camera = self.resolve_camera(h)?;
        if !self.frame_callbacks.contains_key(&cb.0) {
            return Err(VmbError::InvalidString { context: UNKNOWN_FRAME_CALLBACK });
        }
        let frame = match self.frames.get(&slot.0) {
            Some(frame) => *frame,
            None => {
                return Err(VmbError::InvalidString { context: UNKNOWN_FRAME_SLOT });
            },
        };
        self.frames.insert(slot.0, AnnouncedFrame { callback: Some(cb), ..frame });
        Ok(SdkCall::CaptureFrameQueue { camera, slot, callback: cb })
    }

    /// End a capture session. A camera that is not open needs no call.
    pub fn capture_end(&self, h: CameraHandle) -> (call: Option<SdkCall>)
        ensures
            optional(call) == match self@.camera(h) {
                Ok(camera) => Some(SdkCallView::CaptureEnd { camera }),
                Err(_) => None,
            },
    {
        match self.resolve_camera(h) {
            Ok(camera) => Some(SdkCall::CaptureEnd { camera }),
            Err(_) => None,
        }
    }

    /// Flush the frame queue of a camera. A camera that is not open needs no call.
    pub fn capture_queue_flush(&self, h: CameraHandle) -> (call: Option<SdkCall>)
        ensures
            optional(call) == match self@.camera(h) {
                Ok(camera) => Some(SdkCallView::CaptureQueueFlush { camera }),
                Err(_) => None,
            },
    {
        match self.resolve_camera(h) {
            Ok(camera) => Some(SdkCall::CaptureQueueFlush { camera }),
            Err(_) => None,
        }
    }

    /// Revoke every announced frame slot of a camera. A camera that is not open needs no call.
    pub fn frame_revoke_all(&self, h: CameraHandle) -> (call: Option<SdkCall>)
        ensures
            optional(call) == match self@.camera(h) {
                Ok(camera) => Some(SdkCallView::FrameRevokeAll { camera }),
                Err(_) => None,
            },
    {
        match self.resolve_camera(h) {
            Ok(camera) => Some(SdkCall::FrameRevokeAll { camera }),
            Err(_) => None,
        }
    }

    /// The SDK no longer refers to the buffers of the camera: they are released.
    /// Returns their slots.
    pub fn frame_revoke_all_done(&mut self, h: CameraHandle) -> (released: Vec<FrameSlotId>)
        requires
            old(self).wf(),
        ensures
            final(self).wf(),
            final(self)@ == (FfiView { frames: old(self)@.frames_elsewhere(h), ..old(self)@ }),
            released@.no_duplicates(),
            forall|slot: u64| #[trigger]
                released@.contains(FrameSlotId(slot)) <==> old(self)@.frames.contains_key(slot)
                    && old(self)@.frames[slot].camera == h@,
    {
        let owner = h.get();
        let mut kept: HashMap<u64, AnnouncedFrame> = HashMap::new();
        let mut released: Vec<FrameSlotId> = Vec::new();
        let ghost frames = self.frames@;
        let ghost mine = |slot: u64| frames.contains_key(slot) && frames[slot].camera == owner;
        for slot in it: self.frames.keys()
            invariant
                frames == self.frames@,
                forall|slot: u64| #[trigger]
                    mine(slot) == (frames.contains_key(slot) && frames[slot].camera == owner),
                it.seq().unref().to_set() == frames.dom(),
                it.seq().no_duplicates(),
                forall|k: u64| #[trigger]
                    kept@.contains_key(k) ==> frames.contains_key(k) && !mine(k) && kept@[k]
                        == frames[k],
                forall|i: int|
                    0 <= i < it.index() && !mine(*#[trigger] it.seq()[i]) ==> kept@.contains_key(
                        *it.seq()[i],
                    ),
                released@.no_duplicates(),
                forall|i: int| 0 <= i < released@.len() ==> mine(#[trigger] released@[i].0),
                forall|i: int|
                    0 <= i < released@.len() ==> among(
                        it.seq().take(it.index()),
                        (#[trigger] released@[i]).0,
                    ),
                forall|i: int|
                    0 <= i < it.index() && mine(*#[trigger] it.seq()[i]) ==> released@.contains(
                        FrameSlotId(*it.seq()[i]),
                    ),
        {
            assert(it.seq().unref().to_set().contains(*slot));
            proof {
                lemma_among_grows(it.seq(), it.index());
            }
            if let Some(frame) = self.frames.get(slot) {
                if frame.camera == owner {
                    let ghost before = released@;
                    released.push(FrameSlotId(*slot));
                    proof {
                        assert(released@.last() == FrameSlotId(*slot));
                        assert forall|s: FrameSlotId| #[trigger] before.contains(
                            s,
                        ) implies released@.contains(s) by {
                            let i = choose|i: int| 0 <= i < before.len() && before[i] == s;
                            assert(released@[i] == s);
                        }
                    }
                } else {
                    kept.insert(*slot, *frame);
                }
            }
        }
        self.frames = kept;
        proof {
            assert(self.frames@ =~= old(self)@.frames_elsewhere(h));
        }
        released
    }

    // --- Discovery ----------------------------------------------------

    /// Subscribe an installed callback to cameras that come and go.
    pub fn register_discovery(&self, cb: DiscoveryCallbackId) -> (r: Result<SdkCall, VmbError>)
        ensures
            planned(r) == if self@.discovery_callbacks.contains_key(cb.0) {
                Ok::<SdkCallView, VmbError>(
                    SdkCallView::InvalidationRegister {
                        feature: FEATURE_EVENT_CAMERA_DISCOVERY@,
                        subscriber: cb,
                    },
                )
            } else {
                Err(VmbError::InvalidString { context: UNKNOWN_DISCOVERY_CALLBACK })
            },
    {
        if !self.discovery_callbacks.contains_key(&cb.0) {
            return Err(VmbError::InvalidString { context: UNKNOWN_DISCOVERY_CALLBACK });
        }
        let feature = discovery_feature();
        Ok(SdkCall::InvalidationRegister { feature, subscriber: cb })
    }

    /// The SDK answered: if it accepted, the subscription gets a handle.
    pub fn register_discovery_done(&mut self, cb: DiscoveryCallbackId, code: i32) -> (r: Result<
        DiscoveryRegistrationHandle,
        VmbError,
    >)
        requires
            old(self).wf(),
        ensures
            final(self).wf(),
            match checked(code) {
                Err(e) => {
                    &&& r == Err::<DiscoveryRegistrationHandle, VmbError>(e)
                    &&& final(self)@ == old(self)@
                },
                Ok(()) => {
                    let handle = DiscoveryRegistrationHandle(old(self)@.next_number());
                    &&& r == Ok::<DiscoveryRegistrationHandle, VmbError>(handle)
                    &&& old(self)@.issued < u64::MAX ==> !old(self)@.discovery_regs.contains_key(
                        handle.0,
                    )
                    &&& final(self)@ == (FfiView {
                        discovery_regs: old(self)@.discovery_regs.insert(handle.0, cb),
                        ..old(self)@.issue()
                    })
                },
            },
    {
        match check(code) {
            Err(e) => {
                return Err(e);
            },
            Ok(()) => {},
        }
        let handle = DiscoveryRegistrationHandle(self.next_u64());
        self.discovery_regs.insert(handle.0, cb);
        Ok(handle)
    }

    /// End a subscription. It is gone whatever the SDK answers; one that is not
    /// live needs no call.
    pub fn unregister_discovery(&mut self, r: DiscoveryRegistrationHandle) -> (call: Option<
        SdkCall,
    >)
        requires
            old(self).wf(),
        ensures
            final(self).wf(),
            final(self)@ == (FfiView {
                discovery_regs: old(self)@.discovery_regs.remove(r.0),
                ..old(self)@
            }),
            optional(call) == old(self)@.unsubscription(r),
    {
        match self.discovery_regs.remove(&r.0) {
            Some(_) => Some(
                SdkCall::InvalidationUnregister { feature: discovery_feature(), registration: r },
            ),
            None => {
                assert(self@.discovery_regs =~= old(self)@.discovery_regs.remove(r.0));
                None
            },
        }
    }

    // --- Callback installation ----------------------------------------

    /// Install a frame callback and return its ID.
    pub fn install_frame_callback(&mut self, cb: Arc<FrameCallback<F>>) -> (id: FrameCallbackId)
        requires
            old(self).wf(),
        ensures
            final(self).wf(),
            id == FrameCallbackId(old(self)@.next_number()),
            old(self)@.issued < u64::MAX ==> !old(self)@.frame_callbacks.contains_key(id.0),
            final(self)@ == (FfiView {
                frame_callbacks: old(self)@.frame_callbacks.insert(id.0, cb),
                ..old(self)@.issue()
            }),
    {
        let id = FrameCallbackId(self.next_u64());
        self.frame_callbacks.insert(id.0, cb);
        id
    }

    /// Uninstall a frame callback.
    pub fn uninstall_frame_callback(&mut self, id: FrameCallbackId)
        requires
            old(self).wf(),
        ensures
            final(self).wf(),
            final(self)@ == (FfiView {
                frame_callbacks: old(self)@.frame_callbacks.remove(id.0),
                ..old(self)@
            }),
    {
        self.frame_callbacks.remove(&id.0);
    }

    /// The frame callback with this ID.
    pub fn frame_callback(&self, id: FrameCallbackId) -> (cb: Option<&Arc<FrameCallback<F>>>)
        ensures
            cb == if self@.frame_callbacks.contains_key(id.0) {
                Some(&self@.frame_callbacks[id.0])
            } else {
                None
            },
    {
        self.frame_callbacks.get(&id.0)
    }

    /// Install a discovery callback and return its ID.
    pub fn install_discovery_callback(&mut self, cb: Arc<DiscoveryCallback<D>>) -> (id:
        DiscoveryCallbackId)
        requires
            old(self).wf(),
        ensures
            final(self).wf(),
            id == DiscoveryCallbackId(old(self)@.next_number()),
            old(self)@.issued < u64::MAX ==> !old(self)@.discovery_callbacks.contains_key(id.0),
            final(self)@ == (FfiView {
                discovery_callbacks: old(self)@.discovery_callbacks.insert(id.0, cb),
                ..old(self)@.issue()
            }),
    {
        let id = DiscoveryCallbackId(self.next_u64());
        self.discovery_callbacks.insert(id.0, cb);
        id
    }

    /// Uninstall a discovery callback.
    pub fn uninstall_discovery_callback(&mut self, id: DiscoveryCallbackId)
        requires
            old(self).wf(),
        ensures
            final(self).wf(),
            final(self)@ == (FfiView {
                discovery_callbacks: old(self)@.discovery_callbacks.remove(id.0),
                ..old(self)@
            }),
    {
        self.discovery_callbacks.remove(&id.0);
    }

    /// The discovery callback with this ID.
    pub fn discovery_callback(&self, id: DiscoveryCallbackId) -> (cb: Option<
        &Arc<DiscoveryCallback<D>>,
    >)
        ensures
            cb == if self@.discovery_callbacks.contains_key(id.0) {
                Some(&self@.discovery_callbacks[id.0])
            } else {
                None
            },
    {
        self.discovery_callbacks.get(&id.0)
    }
}

/// The discovery feature as the SDK gets it.
fn discovery_feature() -> (feature: CText)
    ensures
        feature@ == FEATURE_EVENT_CAMERA_DISCOVERY@,
{
    proof {
        reveal_strlit("EventCameraDiscovery");
    }
    CText::known(FEATURE_EVENT_CAMERA_DISCOVERY)
}

} // verus!
