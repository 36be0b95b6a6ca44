//! Programmable in-memory [`VmbRuntime`] for unit tests.
//!
//! [`FakeVmbRuntime`] is the test double for code that consumes the port. It
//! records every port call, lets tests drive discovery and frame callbacks
//! synchronously, and supports injecting per-method failures.

use std::collections::HashMap;
use std::sync::Arc;

use vstd::prelude::*;

use crate::callback::{takes_any_event, takes_any_frame, DiscoveryCallback, FrameCallback};
use crate::error::VmbError;
use crate::failures::{FailurePlan, Method};
use crate::fake_model::{
    call_of, calls_of, lemma_calls_of_bound, lemma_calls_of_push, method_of, CallView, FakeView,
    QUEUED_OUTSIDE_CAPTURE,
};
use crate::frame::{Frame, PixelFormat};
use crate::ids::{at_most, IdCounter};
use crate::port::{
    lemma_port_state_push, listed, port_state, History, PortEvent, PortState, RuntimeModel,
    VmbRuntime,
};
use crate::types::{
    CameraHandle, CameraInfo, DiscoveryCallbackId, DiscoveryEvent, DiscoveryRegistrationHandle,
    FrameCallbackId, FrameSlotId,
};

verus! {

broadcast use vstd::std_specs::hash::group_hash_axioms;

/// One recorded port-method invocation.
#[derive(Debug, PartialEq, Eq)]
pub enum FakeCall {
    /// `startup` was called.
    Startup,
    /// `shutdown` was called.
    Shutdown,
    /// `list_cameras` was called.
    ListCameras,
    /// `open_camera(id)` was called.
    OpenCamera(String),
    /// `close_camera(h)` was called.
    CloseCamera(CameraHandle),
    /// `load_settings(h, path)` was called.
    LoadSettings(CameraHandle, String),
    /// `get_feature_int(h, name)` was called.
    GetFeatureInt(CameraHandle, String),
    /// `get_feature_float(h, name)` was called.
    GetFeatureFloat(CameraHandle, String),
    /// `set_feature_float(h, name, bits)` was called.
    SetFeatureFloat(CameraHandle, String, u64),
    /// `set_feature_enum(h, name, value)` was called.
    SetFeatureEnum(CameraHandle, String, String),
    /// `run_feature_command(h, name)` was called.
    RunFeatureCommand(CameraHandle, String),
    /// `payload_size(h)` was called.
    PayloadSize(CameraHandle),
    /// `announce_frame(h, size)` was called.
    AnnounceFrame(CameraHandle, u32),
    /// `capture_start(h)` was called.
    CaptureStart(CameraHandle),
    /// `queue_frame(h, slot, cb)` was called.
    QueueFrame(CameraHandle, FrameSlotId, FrameCallbackId),
    /// `capture_end(h)` was called.
    CaptureEnd(CameraHandle),
    /// `capture_queue_flush(h)` was called.
    CaptureQueueFlush(CameraHandle),
    /// `frame_revoke_all(h)` was called.
    FrameRevokeAll(CameraHandle),
    /// `register_discovery(cb)` was called.
    RegisterDiscovery(DiscoveryCallbackId),
    /// `unregister_discovery(h)` was called.
    UnregisterDiscovery(DiscoveryRegistrationHandle),
    /// `install_frame_callback` returned `id`.
    InstallFrameCallback(FrameCallbackId),
    /// `uninstall_frame_callback(id)` was called.
    UninstallFrameCallback(FrameCallbackId),
    /// `install_discovery_callback` returned `id`.
    InstallDiscoveryCallback(DiscoveryCallbackId),
    /// `uninstall_discovery_callback(id)` was called.
    UninstallDiscoveryCallback(DiscoveryCallbackId),
}

impl View for FakeCall {
    type V = CallView;

    open spec fn view(&self) -> CallView {
        match *self {
            FakeCall::Startup => CallView::Startup,
            FakeCall::Shutdown => CallView::Shutdown,
            FakeCall::ListCameras => CallView::ListCameras,
            FakeCall::OpenCamera(id) => CallView::OpenCamera(id@),
            FakeCall::CloseCamera(h) => CallView::CloseCamera(h),
            FakeCall::LoadSettings(h, path) => CallView::LoadSettings(h, path@),
            FakeCall::GetFeatureInt(h, name) => CallView::GetFeatureInt(h, name@),
            FakeCall::GetFeatureFloat(h, name) => CallView::GetFeatureFloat(h, name@),
            FakeCall::SetFeatureFloat(h, name, bits) => CallView::SetFeatureFloat(h, name@, bits),
            FakeCall::SetFeatureEnum(h, name, value) => CallView::SetFeatureEnum(
                h,
                name@,
                value@,
            ),
            FakeCall::RunFeatureCommand(h, name) => CallView::RunFeatureCommand(h, name@),
            FakeCall::PayloadSize(h) => CallView::PayloadSize(h),
            FakeCall::AnnounceFrame(h, size) => CallView::AnnounceFrame(h, size),
            FakeCall::CaptureStart(h) => CallView::CaptureStart(h),
            FakeCall::QueueFrame(h, slot, cb) => CallView::QueueFrame(h, slot, cb),
            FakeCall::CaptureEnd(h) => CallView::CaptureEnd(h),
            FakeCall::CaptureQueueFlush(h) => CallView::CaptureQueueFlush(h),
            FakeCall::FrameRevokeAll(h) => CallView::FrameRevokeAll(h),
            FakeCall::RegisterDiscovery(cb) => CallView::RegisterDiscovery(cb),
            FakeCall::UnregisterDiscovery(r) => CallView::UnregisterDiscovery(r),
            FakeCall::InstallFrameCallback(id) => CallView::InstallFrameCallback(id),
            FakeCall::UninstallFrameCallback(id) => CallView::UninstallFrameCallback(id),
            FakeCall::InstallDiscoveryCallback(id) => CallView::InstallDiscoveryCallback(id),
            FakeCall::UninstallDiscoveryCallback(id) => CallView::UninstallDiscoveryCallback(id),
        }
    }
}

impl Clone for FakeCall {
    fn clone(&self) -> (copy: Self)
        ensures
            copy == *self,
    {
        match self {
            FakeCall::Startup => FakeCall::Startup,
            FakeCall::Shutdown => FakeCall::Shutdown,
            FakeCall::ListCameras => FakeCall::ListCameras,
            FakeCall::OpenCamera(id) => FakeCall::OpenCamera(id.clone()),
            FakeCall::CloseCamera(h) => FakeCall::CloseCamera(*h),
            FakeCall::LoadSettings(h, path) => FakeCall::LoadSettings(*h, path.clone()),
            FakeCall::GetFeatureInt(h, name) => FakeCall::GetFeatureInt(*h, name.clone()),
            FakeCall::GetFeatureFloat(h, name) => FakeCall::GetFeatureFloat(*h, name.clone()),
            FakeCall::SetFeatureFloat(h, name, bits) => FakeCall::SetFeatureFloat(
                *h,
                name.clone(),
                *bits,
            ),
            FakeCall::SetFeatureEnum(h, name, value) => FakeCall::SetFeatureEnum(
                *h,
                name.clone(),
                value.clone(),
            ),
            FakeCall::RunFeatureCommand(h, name) => FakeCall::RunFeatureCommand(*h, name.clone()),
            FakeCall::PayloadSize(h) => FakeCall::PayloadSize(*h),
            FakeCall::AnnounceFrame(h, size) => FakeCall::AnnounceFrame(*h, *size),
            FakeCall::CaptureStart(h) => FakeCall::CaptureStart(*h),
            FakeCall::QueueFrame(h, slot, cb) => FakeCall::QueueFrame(*h, *slot, *cb),
            FakeCall::CaptureEnd(h) => FakeCall::CaptureEnd(*h),
            FakeCall::CaptureQueueFlush(h) => FakeCall::CaptureQueueFlush(*h),
            FakeCall::FrameRevokeAll(h) => FakeCall::FrameRevokeAll(*h),
            FakeCall::RegisterDiscovery(cb) => FakeCall::RegisterDiscovery(*cb),
            FakeCall::UnregisterDiscovery(r) => FakeCall::UnregisterDiscovery(*r),
            FakeCall::InstallFrameCallback(id) => FakeCall::InstallFrameCallback(*id),
            FakeCall::UninstallFrameCallback(id) => FakeCall::UninstallFrameCallback(*id),
            FakeCall::InstallDiscoveryCallback(id) => FakeCall::InstallDiscoveryCallback(*id),
            FakeCall::UninstallDiscoveryCallback(id) => FakeCall::UninstallDiscoveryCallback(*id),
        }
    }
}

/// Fake behavior configuration.
struct Config {
    /// Errors to return, each on one call to come, and the counts of the calls.
    failures: FailurePlan,
    /// The camera list returned by `list_cameras`.
    camera_list: Vec<CameraInfo>,
    /// Payload size returned by `payload_size`.
    payload_size: u32,
}

struct State<F, D> {
    started: bool,
    config: Config,
    calls: Vec<FakeCall>,
    cameras: HashMap<u64, String>,
    announced_frames: HashMap<u64, u64>,
    active_captures: HashMap<u64, Vec<(FrameSlotId, FrameCallbackId)>>,
    frame_callbacks: HashMap<u64, Arc<FrameCallback<F>>>,
    discovery_callbacks: HashMap<u64, Arc<DiscoveryCallback<D>>>,
    discovery_regs: HashMap<u64, DiscoveryCallbackId>,
    counter: IdCounter,
    history: Ghost<History<F, D>>,
}

spec fn queues(active: Map<u64, Vec<(FrameSlotId, FrameCallbackId)>>) -> Map<
    u64,
    Seq<(FrameSlotId, FrameCallbackId)>,
> {
    active.map_values(|v: Vec<(FrameSlotId, FrameCallbackId)>| v@)
}

spec fn ids(cameras: Map<u64, String>) -> Map<u64, Seq<char>> {
    cameras.map_values(|s: String| s@)
}

impl<F, D> State<F, D> {
    spec fn model(self) -> FakeView<F, D> {
        FakeView {
            history: self.history@,
            cameras: ids(self.cameras@),
            failures: self.config.failures@,
            camera_list: self.config.camera_list@,
            payload_size: self.config.payload_size,
            issued: self.counter@,
        }
    }

    /// The log is the record of the history, and the counters count it.
    spec fn log_matches(self) -> bool {
        &&& self.calls@.len() == self.history@.len()
        &&& forall|i: int|
            0 <= i < self.calls@.len() ==> #[trigger] self.calls@[i]@ == call_of(self.history@[i])
        &&& forall|m: Method| #[trigger]
            self.config.failures.made(m) == calls_of(self.history@, m)
        &&& self.config.failures.valid()
    }

    /// The tables hold what the history leaves claimed.
    spec fn tables_match(self, claimed: PortState<F, D>) -> bool {
        &&& self.started == claimed.started
        &&& self.announced_frames@ == claimed.announced
        &&& queues(self.active_captures@) == claimed.active
        &&& self.frame_callbacks@ == claimed.frame_callbacks
        &&& self.discovery_callbacks@ == claimed.discovery_callbacks
        &&& self.discovery_regs@ == claimed.discovery_regs
    }

    /// Until the counter wraps around, every identifier in use is among those that
    /// were given out.
    spec fn numbers_match(self) -> bool {
        &&& !self.cameras@.contains_key(0)
        &&& self.counter@ < u64::MAX ==> {
            &&& at_most(self.cameras@, self.counter@)
            &&& at_most(self.announced_frames@, self.counter@)
            &&& at_most(self.frame_callbacks@, self.counter@)
            &&& at_most(self.discovery_callbacks@, self.counter@)
            &&& at_most(self.discovery_regs@, self.counter@)
        }
    }

    fn new() -> (state: Self)
        ensures
            state.model() == FakeView::<F, D>::fresh(),
            state.log_matches(),
            state.tables_match(port_state(state.history@)),
            state.numbers_match(),
            state.frame_callbacks@ == Map::<u64, Arc<FrameCallback<F>>>::empty(),
            state.discovery_callbacks@ == Map::<u64, Arc<DiscoveryCallback<D>>>::empty(),
    {
        let state = State {
            started: false,
            config: Config {
                failures: FailurePlan::new(),
                camera_list: Vec::new(),
                payload_size: 1024,
            },
            calls: Vec::new(),
            cameras: HashMap::new(),
            announced_frames: HashMap::new(),
            active_captures: HashMap::new(),
            frame_callbacks: HashMap::new(),
            discovery_callbacks: HashMap::new(),
            discovery_regs: HashMap::new(),
            counter: IdCounter::new(),
            history: Ghost(Seq::empty()),
        };
        assert(ids(state.cameras@) =~= Map::<u64, Seq<char>>::empty());
        assert(queues(state.active_captures@) =~= Map::<
            u64,
            Seq<(FrameSlotId, FrameCallbackId)>,
        >::empty());
        state
    }

    /// The next number for an identifier.
    fn next_u64(&mut self) -> (n: u64)
        ensures
            n == old(self).model().next_number(),
            *final(self) == (State { counter: final(self).counter, ..*old(self) }),
            final(self).model() == old(self).model().issue(),
            old(self).counter@ < u64::MAX ==> n == old(self).counter@ + 1,
    {
        self.counter.next_u64()
    }

    /// The next number for a camera handle, which is not zero.
    fn next_id(&mut self) -> (n: u64)
        requires
            old(self).model().next_number() != 0,
        ensures
            n != 0,
            n == old(self).model().next_number(),
            *final(self) == (State { counter: final(self).counter, ..*old(self) }),
            final(self).model() == old(self).model().issue(),
            old(self).counter@ < u64::MAX ==> n == old(self).counter@ + 1,
    {
        self.counter.next_id()
    }

    fn record(&mut self, call: FakeCall)
        ensures
            *final(self) == (State { calls: final(self).calls, ..*old(self) }),
            final(self).calls@ == old(self).calls@.push(call),
    {
        self.calls.push(call);
    }

    /// If the caller has rigged this call of the method to fail, return the
    /// injected error. Otherwise return `Ok(())`.
    fn maybe_fail(&mut self, method: Method) -> (r: Result<(), VmbError>)
        requires
            old(self).config.failures.valid(),
            old(self).calls@.len() == old(self).history@.len() + 1,
            forall|m: Method| #[trigger]
                old(self).config.failures.made(m) == calls_of(old(self).history@, m),
        ensures
            *final(self) == (State { config: final(self).config, ..*old(self) }),
            final(self).config.camera_list == old(self).config.camera_list,
            final(self).config.payload_size == old(self).config.payload_size,
            final(self).config.failures.valid(),
            final(self).config.failures@ == old(self).config.failures@.remove(
                (method, calls_of(old(self).history@, method)),
            ),
            forall|m: Method| #[trigger]
                final(self).config.failures.made(m) == calls_of(old(self).history@, m)
                    + if m == method {
                    1nat
                } else {
                    0nat
                },
            old(self).model().answers(method, r, ()),
    {
        proof {
            assert(self.config.failures.made(method) == calls_of(self.history@, method));
            lemma_calls_of_bound(self.history@, method);
            assert(self.calls.len() <= usize::MAX);
        }
        self.config.failures.maybe_fail(method)
    }

    /// A call that was recorded and whose effect has taken place goes into the
    /// history.
    fn note(&mut self, Ghost(event): Ghost<PortEvent<F, D>>)
        requires
            old(self).calls@.len() == old(self).history@.len() + 1,
            old(self).calls@.last()@ == call_of(event),
            forall|i: int|
                0 <= i < old(self).history@.len() ==> #[trigger] old(self).calls@[i]@ == call_of(
                    old(self).history@[i],
                ),
            forall|m: Method| #[trigger]
                old(self).config.failures.made(m) == calls_of(old(self).history@, m)
                    + if method_of(event) == Some(m) {
                    1nat
                } else {
                    0nat
                },
            old(self).config.failures.valid(),
            old(self).tables_match(port_state(old(self).history@).step(event)),
            old(self).numbers_match(),
        ensures
            *final(self) == (State { history: final(self).history, ..*old(self) }),
            final(self).history@ == old(self).history@.push(event),
            final(self).log_matches(),
            final(self).tables_match(port_state(final(self).history@)),
            final(self).numbers_match(),
    {
        proof {
            lemma_calls_of_push(self.history@, event);
            lemma_port_state_push(self.history@, event);
        }
        self.history = Ghost(self.history@.push(event));
    }
}

/// The entries whose owner is another.
fn owned_by_others(announced: &HashMap<u64, u64>, owner: u64) -> (kept: HashMap<u64, u64>)
    ensures
        kept@ == Map::new(
            |slot: u64| announced@.contains_key(slot) && announced@[slot] != owner,
            |slot: u64| announced@[slot],
        ),
{
    let mut kept: HashMap<u64, u64> = HashMap::new();
    let ghost target = Map::new(
        |slot: u64| announced@.contains_key(slot) && announced@[slot] != owner,
        |slot: u64| announced@[slot],
    );
    for slot in it: announced.keys()
        invariant
            it.seq().unref().to_set() == announced@.dom(),
            target == Map::new(
                |slot: u64| announced@.contains_key(slot) && announced@[slot] != owner,
                |slot: u64| announced@[slot],
            ),
            forall|k: u64| #[trigger]
                kept@.contains_key(k) ==> target.contains_key(k) && kept@[k] == target[k],
            forall|i: int|
                0 <= i < it.index() && target.contains_key(*#[trigger] it.seq()[i])
                    ==> kept@.contains_key(*it.seq()[i]),
    {
        assert(it.seq().unref().to_set().contains(*slot));
        if let Some(holder) = announced.get(slot) {
            if *holder != owner {
                kept.insert(*slot, *holder);
            }
        }
    }
    kept
}

/// The list holds the entries with these keys, in this order.
pub open spec fn lists_by<V>(list: Seq<&V>, entries: Map<u64, V>, keys: Seq<u64>) -> bool {
    &&& keys.no_duplicates()
    &&& keys.to_set() == entries.dom()
    &&& list.len() == keys.len()
    &&& forall|i: int| 0 <= i < keys.len() ==> #[trigger] list[i] == entries[keys[i]]
}

/// The list holds each of the entries once.
pub open spec fn lists_each_once<V>(list: Seq<&V>, entries: Map<u64, V>) -> bool {
    exists|keys: Seq<u64>| lists_by(list, entries, keys)
}

/// In-memory fake implementation of [`VmbRuntime`].
///
/// `F` and `D` are the types of the frame and discovery closures it stores.
pub struct FakeVmbRuntime<F, D> {
    state: State<F, D>,
}

impl<F, D> View for FakeVmbRuntime<F, D> {
    type V = FakeView<F, D>;

    closed spec fn view(&self) -> FakeView<F, D> {
        self.state.model()
    }
}

impl<F, D> Default for FakeVmbRuntime<F, D> where
    F: for <'a>Fn(&Frame<'a>) + Send + Sync + 'static,
    D: Fn(DiscoveryEvent) + Send + Sync + 'static,
 {
    fn default() -> (fake: Self)
        ensures
            fake.wf(),
            fake@ == FakeView::<F, D>::fresh(),
    {
        Self::new()
    }
}

impl<F, D> FakeVmbRuntime<F, D> where
    F: for <'a>Fn(&Frame<'a>) + Send + Sync + 'static,
    D: Fn(DiscoveryEvent) + Send + Sync + 'static,
 {
    /// The log, the counters and the tables are what the history says, and every
    /// installed closure can be called with anything.
    pub closed spec fn wf(&self) -> bool {
        &&& self.state.log_matches()
        &&& self.state.tables_match(port_state(self.state.history@))
        &&& self.state.numbers_match()
        &&& forall|id: u64| #[trigger]
            self.state.frame_callbacks@.contains_key(id)
                ==> takes_any_frame(self.state.frame_callbacks@[id].closure())
        &&& forall|id: u64| #[trigger]
            self.state.discovery_callbacks@.contains_key(id)
                ==> takes_any_event(self.state.discovery_callbacks@[id].closure())
    }

    /// Until the identifiers wrap around, every one in use is among those that
    /// were given out.
    pub proof fn lemma_identifiers_in_use(&self)
        requires
            self.wf(),
            self@.issued < u64::MAX,
        ensures
            forall|k: u64| #[trigger] self@.cameras.contains_key(k) ==> k <= self@.issued,
            forall|k: u64| #[trigger] self@.port().announced.contains_key(k) ==> k <= self@.issued,
            forall|k: u64| #[trigger]
                self@.port().frame_callbacks.contains_key(k) ==> k <= self@.issued,
            forall|k: u64| #[trigger]
                self@.port().discovery_callbacks.contains_key(k) ==> k <= self@.issued,
            forall|k: u64| #[trigger]
                self@.port().discovery_regs.contains_key(k) ==> k <= self@.issued,
    {
    }

    /// Construct a fresh fake. `list_cameras` returns nothing, `payload_size`
    /// returns 1024, and no failure is armed.
    pub fn new() -> (fake: Self)
        ensures
            fake.wf(),
            fake@ == FakeView::<F, D>::fresh(),
    {
        FakeVmbRuntime { state: State::new() }
    }

    // --- Programmable knobs -------------------------------------------

    /// Make the `skip`-th future call to `method` return `err` (0-indexed).
    pub fn fail_nth(&mut self, method: Method, skip: u64, err: VmbError)
        requires
            old(self).wf(),
        ensures
            final(self).wf(),
            final(self)@ == old(self)@.armed(method, skip as nat, err),
    {
        assert(self.state.config.failures.made(method) == calls_of(self@.history, method));
        self.state.config.failures.arm(method, skip, err);
    }

    /// Shortcut for `fail_nth(method, 0, err)`.
    pub fn fail_next(&mut self, method: Method, err: VmbError)
        requires
            old(self).wf(),
        ensures
            final(self).wf(),
            final(self)@ == old(self)@.armed(method, 0, err),
    {
        self.fail_nth(method, 0, err);
    }

    /// Set the list of cameras returned by `list_cameras`.
    pub fn set_camera_list(&mut self, cameras: Vec<CameraInfo>)
        requires
            old(self).wf(),
        ensures
            final(self).wf(),
            final(self)@ == (FakeView { camera_list: cameras@, ..old(self)@ }),
    {
        self.state.config.camera_list = cameras;
    }

    /// Set the payload size returned by `payload_size`.
    pub fn set_payload_size(&mut self, size: u32)
        requires
            old(self).wf(),
        ensures
            final(self).wf(),
            final(self)@ == (FakeView { payload_size: size, ..old(self)@ }),
    {
        self.state.config.payload_size = size;
    }

    /// Whether there is a camera handle left to give out.
    pub fn can_issue_handle(&self) -> (left: bool)
        requires
            self.wf(),
        ensures
            left == (self@.next_number() != 0),
    {
        self.state.counter.has_id()
    }

    /// Whether `open_camera` can be called: it needs a camera handle to give out,
    /// unless it is made to fail.
    pub fn can_open_camera(&self) -> (can: bool)
        requires
            self.wf(),
        ensures
            can == self.can_open(),
    {
        assert(self.state.config.failures.made(Method::OpenCamera) == calls_of(
            self@.history,
            Method::OpenCamera,
        ));
        self.state.counter.has_id() || self.state.config.failures.is_due(Method::OpenCamera)
    }

    /// Pre-seed the fake with a camera in the "already open" state without going
    /// through `open_camera`: no call is recorded, failure injection is not
    /// consulted, and nothing else changes.
    ///
    /// A fresh handle is allocated, bound to `id` and returned. Calling this
    /// several times with the same `id` allocates a handle each time, and the
    /// bindings coexist: the most recent handle wins for
    /// [`FakeVmbRuntime::handle_for`] only if the earlier ones are dropped.
    pub fn pre_open_camera(&mut self, id: &str) -> (handle: CameraHandle)
        requires
            old(self).wf(),
            old(self)@.next_number() != 0,
        ensures
            final(self).wf(),
            handle@ == old(self)@.next_number(),
            old(self)@.issued < u64::MAX ==> !old(self)@.cameras.contains_key(handle@),
            final(self)@ == (FakeView {
                cameras: old(self)@.cameras.insert(handle@, id@),
                ..old(self)@.issue()
            }),
    {
        let handle = CameraHandle::new(self.state.next_id());
        let ghost cameras = self.state.cameras@;
        self.state.cameras.insert(handle.get(), id.to_owned());
        assert(ids(self.state.cameras@) =~= ids(cameras).insert(handle@, id@));
        handle
    }

    // --- Call log inspection ------------------------------------------

    /// Return a snapshot of every port-method call in order.
    pub fn calls(&self) -> (calls: Vec<FakeCall>)
        requires
            self.wf(),
        ensures
            calls@.map_values(|call: FakeCall| call@) == self@.calls(),
    {
        let calls = self.state.calls.clone();
        assert(calls@ =~= self.state.calls@);
        assert(calls@.map_values(|call: FakeCall| call@) =~= self@.calls());
        calls
    }

    /// Number of recorded calls.
    pub fn call_count(&self) -> (count: usize)
        requires
            self.wf(),
        ensures
            count == self@.calls().len(),
    {
        self.state.calls.len()
    }

    /// Whether `startup` has succeeded and was not yet paired with a
    /// `shutdown`.
    pub fn is_started(&self) -> (started: bool)
        requires
            self.wf(),
        ensures
            started == self@.port().started,
    {
        self.state.started
    }

    /// Look up the handle allocated for the camera with the given ID: the lowest
    /// of those bound to it, `None` if no such camera is open.
    pub fn handle_for(&self, id: &str) -> (found: Option<CameraHandle>)
        requires
            self.wf(),
        ensures
            match found {
                Some(handle) => self@.is_first_with_id(handle@, id@),
                None => forall|raw: u64| #[trigger]
                    self@.cameras.contains_key(raw) ==> self@.cameras[raw] != id@,
            },
    {
        let wanted = id.to_owned();
        let mut best: Option<u64> = None;
        let ghost cameras = self.state.cameras@;
        for raw in it: self.state.cameras.keys()
            invariant
                cameras == self.state.cameras@,
                wanted@ == id@,
                it.seq().unref().to_set() == cameras.dom(),
                match best {
                    Some(b) => cameras.contains_key(b) && cameras[b]@ == id@,
                    None => true,
                },
                forall|i: int|
                    0 <= i < it.index() && cameras[*#[trigger] it.seq()[i]]@ == id@ ==> best is Some
                        && best->0 <= *it.seq()[i],
        {
            assert(it.seq().unref().to_set().contains(*raw));
            if let Some(bound) = self.state.cameras.get(raw) {
                if *bound == wanted {
                    let better = match best {
                        Some(b) => *raw < b,
                        None => true,
                    };
                    if better {
                        best = Some(*raw);
                    }
                }
            }
        }
        match best {
            Some(raw) => Some(CameraHandle::new(raw)),
            None => None,
        }
    }

    // --- Drive callbacks synchronously --------------------------------

    /// Whether a live registration refers to the callback.
    fn is_registered(&self, id: u64) -> (registered: bool)
        requires
            self.wf(),
        ensures
            registered == self@.registered(id),
    {
        let ghost regs = self.state.discovery_regs@;
        for r in it: self.state.discovery_regs.keys()
            invariant
                self.wf(),
                regs == self.state.discovery_regs@,
                it.seq().unref().to_set() == regs.dom(),
                forall|i: int|
                    0 <= i < it.index() ==> regs[*#[trigger] it.seq()[i]].0 != id,
        {
            assert(it.seq().unref().to_set().contains(*r));
            if let Some(cb) = self.state.discovery_regs.get(r) {
                if cb.0 == id {
                    assert(self@.port().discovery_regs.contains_key(*r));
                    return true;
                }
            }
        }
        false
    }

    /// Every registered discovery callback, each once, in no particular order: an
    /// installed callback with at least one live registration.
    pub fn discovery_callbacks(&self) -> (callbacks: Vec<&Arc<DiscoveryCallback<D>>>)
        requires
            self.wf(),
        ensures
            lists_each_once(callbacks@, self@.subscribed()),
            forall|i: int|
                0 <= i < callbacks@.len() ==> takes_any_event(#[trigger] callbacks@[i].closure()),
    {
        let mut callbacks: Vec<&Arc<DiscoveryCallback<D>>> = Vec::new();
        let ghost installed = self.state.discovery_callbacks@;
        let ghost subscribed = self@.subscribed();
        let ghost mut ids: Seq<u64> = Seq::empty();
        for id in it: self.state.discovery_callbacks.keys()
            invariant
                self.wf(),
                installed == self.state.discovery_callbacks@,
                it.seq().unref().to_set() == installed.dom(),
                it.seq().no_duplicates(),
                subscribed == self@.subscribed(),
                forall|i: int|
                    0 <= i < it.index() && subscribed.contains_key(*#[trigger] it.seq()[i])
                        ==> ids.contains(*it.seq()[i]),
                forall|i: int|
                    0 <= i < ids.len() ==> {
                        &&& subscribed.contains_key(#[trigger] ids[i])
                        &&& it.seq().unref().take(it.index()).contains(ids[i])
                    },
                ids.no_duplicates(),
                callbacks@.len() == ids.len(),
                forall|i: int|
                    0 <= i < ids.len() ==> #[trigger] callbacks@[i] == subscribed[ids[i]]
                        && takes_any_event(callbacks@[i].closure()),
        {
            assert(it.seq().unref().to_set().contains(*id));
            let ghost seen = it.seq().unref().take(it.index());
            let ghost all = it.seq().unref();
            let ghost n = it.index();
            proof {
                assert(all.take(n + 1) =~= seen.push(*id));
                assert(!seen.contains(*id)) by {
                    if seen.contains(*id) {
                        let i = choose|i: int| 0 <= i < seen.len() && seen[i] == *id;
                        assert(it.seq()[i] == it.seq()[n]);
                    }
                }
                assert forall|k: u64| seen.contains(k) || k == *id implies #[trigger] all.take(
                    n + 1,
                ).contains(k) by {
                    if seen.contains(k) {
                        let i = choose|i: int| 0 <= i < seen.len() && seen[i] == k;
                        assert(all.take(n + 1)[i] == k);
                    } else {
                        assert(all.take(n + 1)[n] == k);
                    }
                }
            }
            if self.is_registered(*id) {
                if let Some(cb) = self.state.discovery_callbacks.get(id) {
                    callbacks.push(cb);
                    proof {
                        let grown = ids.push(*id);
                        assert forall|k: u64| #[trigger] ids.contains(k) implies grown.contains(
                            k,
                        ) by {
                            let i = choose|i: int| 0 <= i < ids.len() && ids[i] == k;
                            assert(grown[i] == k);
                        }
                        assert(grown[ids.len() as int] == *id);
                        ids = grown;
                    }
                }
            }
        }
        proof {
            assert forall|id: u64| #[trigger] subscribed.contains_key(id) implies ids.contains(
                id,
            ) by {
                assert(installed.contains_key(id));
            }
            assert(ids.to_set() =~= subscribed.dom());
            assert(lists_by(callbacks@, subscribed, ids));
        }
        callbacks
    }

    /// Drive every registered discovery callback with `event`. One that is
    /// installed but has no live registration is not driven.
    ///
    /// Who is driven is what [`FakeVmbRuntime::discovery_callbacks`] lists, and that is
    /// exact. The contract here says that each of them was called with the event. It
    /// cannot say how often, nor that nobody else was called: a closure is known by
    /// what holds after a call, not by the number of its calls.
    pub fn emit_discovery(&self, event: DiscoveryEvent)
        requires
            self.wf(),
        ensures
            forall|id: u64| #[trigger]
                self@.subscribed().contains_key(id) ==> call_ensures(
                    self@.subscribed()[id].closure(),
                    (event,),
                    (),
                ),
    {
        let callbacks = self.discovery_callbacks();
        let mut i: usize = 0;
        while i < callbacks.len()
            invariant
                i <= callbacks@.len(),
                forall|j: int|
                    0 <= j < callbacks@.len() ==> takes_any_event(
                        #[trigger] callbacks@[j].closure(),
                    ),
                forall|j: int|
                    0 <= j < i ==> call_ensures(
                        #[trigger] callbacks@[j].closure(),
                        (event,),
                        (),
                    ),
            decreases callbacks@.len() - i,
        {
            callbacks[i].invoke(event.clone());
            i = i + 1;
        }
        proof {
            let subscribed = self@.subscribed();
            let ids = choose|ids: Seq<u64>| lists_by(callbacks@, subscribed, ids);
            assert forall|id: u64| #[trigger] subscribed.contains_key(id) implies call_ensures(
                subscribed[id].closure(),
                (event,),
                (),
            ) by {
                assert(ids.to_set().contains(id));
                let j = choose|j: int| 0 <= j < ids.len() && ids[j] == id;
                assert(callbacks@[j].closure() == subscribed[id].closure());
            }
        }
    }

    /// Whether the camera has a live capture.
    pub fn is_capturing(&self, camera: CameraHandle) -> (live: bool)
        requires
            self.wf(),
        ensures
            live == self@.port().capturing(camera),
    {
        self.state.active_captures.contains_key(&camera.get())
    }

    /// The callback for the next frame of a camera: the one attached to its first
    /// queued slot. `None` if the camera has no queued slots or the callback is
    /// no longer installed.
    pub fn frame_callback_for(&self, camera: CameraHandle) -> (cb: Option<&Arc<FrameCallback<F>>>)
        requires
            self.wf(),
        ensures
            cb == match self@.frame_callback_for(camera) {
                Some(cb) => Some(&cb),
                None => None,
            },
            cb is Some ==> takes_any_frame(cb->0.closure()),
    {
        match self.state.active_captures.get(&camera.get()) {
            Some(slots) => {
                if slots.len() == 0 {
                    None
                } else {
                    self.state.frame_callbacks.get(&slots[0].1.0)
                }
            },
            None => None,
        }
    }

    /// Take what it needs to deliver one frame for a camera: the callback to invoke
    /// and the number that the frame carries, which is the next identifier. `None`,
    /// and nothing is taken, if there is no callback for the frame.
    pub fn next_delivery(&mut self, camera: CameraHandle) -> (delivery: Option<
        (&Arc<FrameCallback<F>>, u64),
    >)
        requires
            old(self).wf(),
        ensures
            final(self).wf(),
            match old(self)@.frame_callback_for(camera) {
                Some(cb) => {
                    &&& delivery == Some((&cb, old(self)@.next_number()))
                    &&& takes_any_frame(cb.closure())
                    &&& final(self)@ == old(self)@.issue()
                },
                None => delivery is None && final(self)@ == old(self)@,
            },
    {
        if self.frame_callback_for(camera).is_none() {
            return None;
        }
        let number = self.state.next_u64();
        match self.frame_callback_for(camera) {
            Some(cb) => Some((cb, number)),
            None => None,
        }
    }

    /// Drive the frame callback attached to the first queued slot of the given
    /// camera, whose capture must be live. Returns `true` if a frame was
    /// delivered, `false` if the camera has no queued slots or the callback is
    /// no longer installed.
    ///
    /// The frame carries the next identifier, both as its ID and as its
    /// timestamp.
    ///
    /// The contract says that the callback was called with this frame. It cannot say
    /// how often: a closure is known by what holds after a call, not by the number of
    /// its calls.
    pub fn deliver_frame(
        &mut self,
        camera: CameraHandle,
        bytes: &[u8],
        width: u32,
        height: u32,
        pixel_format: PixelFormat,
    ) -> (delivered: bool)
        requires
            old(self).wf(),
            old(self)@.port().capturing(camera),
        ensures
            final(self).wf(),
            match old(self)@.frame_callback_for(camera) {
                Some(cb) => {
                    let number = old(self)@.next_number();
                    let frame = Frame {
                        bytes,
                        width,
                        height,
                        pixel_format,
                        timestamp_ns: number,
                        frame_id: number,
                    };
                    &&& delivered
                    &&& call_ensures(cb.closure(), (&frame,), ())
                    &&& final(self)@ == old(self)@.issue()
                },
                None => !delivered && final(self)@ == old(self)@,
            },
    {
        match self.next_delivery(camera) {
            Some((cb, number)) => {
                let frame = Frame::numbered(bytes, width, height, pixel_format, number);
                cb.invoke(&frame);
                true
            },
            None => false,
        }
    }
}

impl<F, D> RuntimeModel for FakeVmbRuntime<F, D> where
    F: for <'a>Fn(&Frame<'a>) + Send + Sync + 'static,
    D: Fn(DiscoveryEvent) + Send + Sync + 'static,
 {
    type FrameFn = F;

    type DiscoveryFn = D;

    type Model = FakeView<F, D>;

    open spec fn valid(&self) -> bool {
        self.wf()
    }

    open spec fn history(&self) -> History<F, D> {
        self@.history
    }

    open spec fn model(&self) -> FakeView<F, D> {
        self@
    }

    open spec fn allows(model: FakeView<F, D>, event: PortEvent<F, D>) -> bool {
        model.allows(event)
    }

    open spec fn next(model: FakeView<F, D>, event: PortEvent<F, D>) -> FakeView<F, D> {
        model.next(event)
    }

    open spec fn takes_any_frame(f: F) -> bool {
        takes_any_frame(f)
    }

    open spec fn can_open(&self) -> bool {
        self@.next_number() != 0 || self@.injected(Method::OpenCamera) is Some
    }
}

impl<F, D> VmbRuntime for FakeVmbRuntime<F, D> where
    F: for <'a>Fn(&Frame<'a>) + Send + Sync + 'static,
    D: Fn(DiscoveryEvent) + Send + Sync + 'static,
 {
    // --- Lifecycle -----------------------------------------------------

    fn startup(&mut self) -> (r: Result<(), VmbError>)
        ensures
            match old(self)@.injected(Method::Startup) {
                Some(e) => r == Err::<(), VmbError>(e),
                None => r == if old(self)@.port().started {
                    Err(VmbError::AlreadyStarted)
                } else {
                    Ok(())
                },
            },
            final(self)@ == old(self)@.next(PortEvent::Startup(r)),
    {
        self.state.record(FakeCall::Startup);
        let r = match self.state.maybe_fail(Method::Startup) {
            Err(e) => Err(e),
            Ok(()) => {
                if self.state.started {
                    Err(VmbError::AlreadyStarted)
                } else {
                    self.state.started = true;
                    Ok(())
                }
            },
        };
        self.state.note(Ghost(PortEvent::Startup(r)));
        r
    }

    fn shutdown(&mut self)
        ensures
            final(self)@ == old(self)@.next(PortEvent::Shutdown),
    {
        self.state.record(FakeCall::Shutdown);
        self.state.started = false;
        self.state.note(Ghost(PortEvent::Shutdown));
    }

    // --- Cameras -------------------------------------------------------

    fn list_cameras(&mut self) -> (r: Result<Vec<CameraInfo>, VmbError>)
        ensures
            old(self)@.answers(Method::ListCameras, listed(r), old(self)@.camera_list),
            final(self)@ == old(self)@.next(PortEvent::ListCameras(listed(r))),
    {
        self.state.record(FakeCall::ListCameras);
        let r = match self.state.maybe_fail(Method::ListCameras) {
            Err(e) => Err(e),
            Ok(()) => {
                let cameras = self.state.config.camera_list.clone();
                assert(cameras@ =~= self.state.config.camera_list@);
                Ok(cameras)
            },
        };
        self.state.note(Ghost(PortEvent::ListCameras(listed(r))));
        r
    }

    fn open_camera(&mut self, id: &str) -> (r: Result<CameraHandle, VmbError>)
        ensures
            match old(self)@.injected(Method::OpenCamera) {
                Some(e) => r == Err::<CameraHandle, VmbError>(e),
                None => {
                    &&& r is Ok
                    &&& r->Ok_0@ == old(self)@.next_number()
                    &&& old(self)@.issued < u64::MAX ==> !old(self)@.cameras.contains_key(
                        r->Ok_0@,
                    )
                },
            },
            final(self)@ == old(self)@.next(PortEvent::OpenCamera(id@, r)),
    {
        self.state.record(FakeCall::OpenCamera(id.to_owned()));
        let r = match self.state.maybe_fail(Method::OpenCamera) {
            Err(e) => Err(e),
            Ok(()) => {
                let h = CameraHandle::new(self.state.next_id());
                let ghost cameras = self.state.cameras@;
                self.state.cameras.insert(h.get(), id.to_owned());
                assert(ids(self.state.cameras@) =~= ids(cameras).insert(h@, id@));
                Ok(h)
            },
        };
        self.state.note(Ghost(PortEvent::OpenCamera(id@, r)));
        r
    }

    fn close_camera(&mut self, h: CameraHandle)
        ensures
            final(self)@ == old(self)@.next(PortEvent::CloseCamera(h)),
    {
        self.state.record(FakeCall::CloseCamera(h));
        let ghost cameras = self.state.cameras@;
        let ghost active = self.state.active_captures@;
        self.state.cameras.remove(&h.get());
        self.state.active_captures.remove(&h.get());
        proof {
            assert(ids(self.state.cameras@) =~= ids(cameras).remove(h@));
            assert(queues(self.state.active_captures@) =~= queues(active).remove(h@));
        }
        self.state.note(Ghost(PortEvent::CloseCamera(h)));
    }

    fn load_settings(&mut self, h: CameraHandle, path: &str) -> (r: Result<(), VmbError>)
        ensures
            old(self)@.answers(Method::LoadSettings, r, ()),
            final(self)@ == old(self)@.next(PortEvent::LoadSettings(h, path@, r)),
    {
        self.state.record(FakeCall::LoadSettings(h, path.to_owned()));
        let r = self.state.maybe_fail(Method::LoadSettings);
        self.state.note(Ghost(PortEvent::LoadSettings(h, path@, r)));
        r
    }

    fn get_feature_int(&mut self, h: CameraHandle, name: &str) -> (r: Result<i64, VmbError>)
        ensures
            old(self)@.answers(Method::GetFeatureInt, r, 0),
            final(self)@ == old(self)@.next(PortEvent::GetFeatureInt(h, name@, r)),
    {
        self.state.record(FakeCall::GetFeatureInt(h, name.to_owned()));
        let r = match self.state.maybe_fail(Method::GetFeatureInt) {
            Err(e) => Err(e),
            Ok(()) => Ok(0),
        };
        self.state.note(Ghost(PortEvent::GetFeatureInt(h, name@, r)));
        r
    }

    fn get_feature_float(&mut self, h: CameraHandle, name: &str) -> (r: Result<u64, VmbError>)
        ensures
            old(self)@.answers(Method::GetFeatureFloat, r, 0),
            final(self)@ == old(self)@.next(PortEvent::GetFeatureFloat(h, name@, r)),
    {
        self.state.record(FakeCall::GetFeatureFloat(h, name.to_owned()));
        let r = match self.state.maybe_fail(Method::GetFeatureFloat) {
            Err(e) => Err(e),
            Ok(()) => Ok(0),
        };
        self.state.note(Ghost(PortEvent::GetFeatureFloat(h, name@, r)));
        r
    }

    fn set_feature_float(&mut self, h: CameraHandle, name: &str, bits: u64) -> (r: Result<
        (),
        VmbError,
    >)
        ensures
            old(self)@.answers(Method::SetFeatureFloat, r, ()),
            final(self)@ == old(self)@.next(PortEvent::SetFeatureFloat(h, name@, bits, r)),
    {
        self.state.record(FakeCall::SetFeatureFloat(h, name.to_owned(), bits));
        let r = self.state.maybe_fail(Method::SetFeatureFloat);
        self.state.note(Ghost(PortEvent::SetFeatureFloat(h, name@, bits, r)));
        r
    }

    fn set_feature_enum(&mut self, h: CameraHandle, name: &str, value: &str) -> (r: Result<
        (),
        VmbError,
    >)
        ensures
            old(self)@.answers(Method::SetFeatureEnum, r, ()),
            final(self)@ == old(self)@.next(PortEvent::SetFeatureEnum(h, name@, value@, r)),
    {
        self.state.record(FakeCall::SetFeatureEnum(h, name.to_owned(), value.to_owned()));
        let r = self.state.maybe_fail(Method::SetFeatureEnum);
        self.state.note(Ghost(PortEvent::SetFeatureEnum(h, name@, value@, r)));
        r
    }

    fn run_feature_command(&mut self, h: CameraHandle, name: &str) -> (r: Result<(), VmbError>)
        ensures
            old(self)@.answers(Method::RunFeatureCommand, r, ()),
            final(self)@ == old(self)@.next(PortEvent::RunFeatureCommand(h, name@, r)),
    {
        self.state.record(FakeCall::RunFeatureCommand(h, name.to_owned()));
        let r = self.state.maybe_fail(Method::RunFeatureCommand);
        self.state.note(Ghost(PortEvent::RunFeatureCommand(h, name@, r)));
        r
    }

    // --- Capture -------------------------------------------------------

    fn payload_size(&mut self, h: CameraHandle) -> (r: Result<u32, VmbError>)
        ensures
            old(self)@.answers(Method::PayloadSize, r, old(self)@.payload_size),
            final(self)@ == old(self)@.next(PortEvent::PayloadSize(h, r)),
    {
        self.state.record(FakeCall::PayloadSize(h));
        let r = match self.state.maybe_fail(Method::PayloadSize) {
            Err(e) => Err(e),
            Ok(()) => Ok(self.state.config.payload_size),
        };
        self.state.note(Ghost(PortEvent::PayloadSize(h, r)));
        r
    }

    fn announce_frame(&mut self, h: CameraHandle, size: u32) -> (r: Result<FrameSlotId, VmbError>)
        ensures
            old(self)@.answers(Method::AnnounceFrame, r, FrameSlotId(old(self)@.next_number())),
            final(self)@ == old(self)@.next(PortEvent::AnnounceFrame(h, size, r)),
    {
        self.state.record(FakeCall::AnnounceFrame(h, size));
        let r = match self.state.maybe_fail(Method::AnnounceFrame) {
            Err(e) => Err(e),
            Ok(()) => {
                let slot = FrameSlotId(self.state.next_u64());
                self.state.announced_frames.insert(slot.0, h.get());
                Ok(slot)
            },
        };
        self.state.note(Ghost(PortEvent::AnnounceFrame(h, size, r)));
        r
    }

    fn capture_start(&mut self, h: CameraHandle) -> (r: Result<(), VmbError>)
        ensures
            old(self)@.answers(Method::CaptureStart, r, ()),
            final(self)@ == old(self)@.next(PortEvent::CaptureStart(h, r)),
    {
        self.state.record(FakeCall::CaptureStart(h));
        let r = match self.state.maybe_fail(Method::CaptureStart) {
            Err(e) => Err(e),
            Ok(()) => {
                let ghost active = self.state.active_captures@;
                if !self.state.active_captures.contains_key(&h.get()) {
                    self.state.active_captures.insert(h.get(), Vec::new());
                }
                assert(queues(self.state.active_captures@) =~= queues(active).insert(
                    h@,
                    self@.port().queued(h),
                ));
                Ok(())
            },
        };
        self.state.note(Ghost(PortEvent::CaptureStart(h, r)));
        r
    }

    fn queue_frame(&mut self, h: CameraHandle, slot: FrameSlotId, cb: FrameCallbackId) -> (r:
        Result<(), VmbError>)
        ensures
            match old(self)@.injected(Method::QueueFrame) {
                Some(e) => r == Err::<(), VmbError>(e),
                None => r == if old(self)@.port().capturing(h) {
                    Ok(())
                } else {
                    Err(VmbError::InvalidString { context: QUEUED_OUTSIDE_CAPTURE })
                },
            },
            final(self)@ == old(self)@.next(PortEvent::QueueFrame(h, slot, cb, r)),
    {
        self.state.record(FakeCall::QueueFrame(h, slot, cb));
        let r = match self.state.maybe_fail(Method::QueueFrame) {
            Err(e) => Err(e),
            Ok(()) => {
                let ghost active = self.state.active_captures@;
                match self.state.active_captures.remove(&h.get()) {
                    Some(slots) => {
                        let mut slots = slots;
                        slots.push((slot, cb));
                        self.state.active_captures.insert(h.get(), slots);
                        assert(queues(self.state.active_captures@) =~= queues(active).insert(
                            h@,
                            self@.port().queued(h).push((slot, cb)),
                        ));
                        Ok(())
                    },
                    None => {
                        assert(queues(self.state.active_captures@) =~= queues(active));
                        Err(VmbError::InvalidString { context: QUEUED_OUTSIDE_CAPTURE })
                    },
                }
            },
        };
        self.state.note(Ghost(PortEvent::QueueFrame(h, slot, cb, r)));
        r
    }

    fn capture_end(&mut self, h: CameraHandle)
        ensures
            final(self)@ == old(self)@.next(PortEvent::CaptureEnd(h)),
    {
        self.state.record(FakeCall::CaptureEnd(h));
        let ghost active = self.state.active_captures@;
        self.state.active_captures.remove(&h.get());
        assert(queues(self.state.active_captures@) =~= queues(active).remove(h@));
        self.state.note(Ghost(PortEvent::CaptureEnd(h)));
    }

    fn capture_queue_flush(&mut self, h: CameraHandle)
        ensures
            final(self)@ == old(self)@.next(PortEvent::CaptureQueueFlush(h)),
    {
        self.state.record(FakeCall::CaptureQueueFlush(h));
        let ghost active = self.state.active_captures@;
        if self.state.active_captures.contains_key(&h.get()) {
            self.state.active_captures.insert(h.get(), Vec::new());
            assert(queues(self.state.active_captures@) =~= queues(active).insert(
                h@,
                Seq::empty(),
            ));
        }
        self.state.note(Ghost(PortEvent::CaptureQueueFlush(h)));
    }

    fn frame_revoke_all(&mut self, h: CameraHandle)
        ensures
            final(self)@ == old(self)@.next(PortEvent::FrameRevokeAll(h)),
    {
        self.state.record(FakeCall::FrameRevokeAll(h));
        let kept = owned_by_others(&self.state.announced_frames, h.get());
        assert(kept@ =~= self@.port().announced_elsewhere(h));
        self.state.announced_frames = kept;
        self.state.note(Ghost(PortEvent::FrameRevokeAll(h)));
    }

    // --- Discovery -----------------------------------------------------

    fn register_discovery(&mut self, cb: DiscoveryCallbackId) -> (r: Result<
        DiscoveryRegistrationHandle,
        VmbError,
    >)
        ensures
            old(self)@.answers(
                Method::RegisterDiscovery,
                r,
                DiscoveryRegistrationHandle(old(self)@.next_number()),
            ),
            final(self)@ == old(self)@.next(PortEvent::RegisterDiscovery(cb, r)),
    {
        self.state.record(FakeCall::RegisterDiscovery(cb));
        let r = match self.state.maybe_fail(Method::RegisterDiscovery) {
            Err(e) => Err(e),
            Ok(()) => {
                let h = DiscoveryRegistrationHandle(self.state.next_u64());
                self.state.discovery_regs.insert(h.0, cb);
                Ok(h)
            },
        };
        self.state.note(Ghost(PortEvent::RegisterDiscovery(cb, r)));
        r
    }

    fn unregister_discovery(&mut self, r: DiscoveryRegistrationHandle)
        ensures
            final(self)@ == old(self)@.next(PortEvent::UnregisterDiscovery(r)),
    {
        self.state.record(FakeCall::UnregisterDiscovery(r));
        self.state.discovery_regs.remove(&r.0);
        self.state.note(Ghost(PortEvent::UnregisterDiscovery(r)));
    }

    // --- Callback installation -----------------------------------------

    fn install_frame_callback(&mut self, cb: Arc<FrameCallback<F>>) -> (id: FrameCallbackId)
        ensures
            id == FrameCallbackId(old(self)@.next_number()),
            final(self)@ == old(self)@.next(PortEvent::InstallFrameCallback(cb, id)),
    {
        let id = FrameCallbackId(self.state.next_u64());
        self.state.record(FakeCall::InstallFrameCallback(id));
        let ghost installed = cb;
        self.state.frame_callbacks.insert(id.0, cb);
        self.state.note(Ghost(PortEvent::InstallFrameCallback(installed, id)));
        id
    }

    fn uninstall_frame_callback(&mut self, id: FrameCallbackId)
        ensures
            final(self)@ == old(self)@.next(PortEvent::UninstallFrameCallback(id)),
    {
        self.state.record(FakeCall::UninstallFrameCallback(id));
        self.state.frame_callbacks.remove(&id.0);
        self.state.note(Ghost(PortEvent::UninstallFrameCallback(id)));
    }

    fn install_discovery_callback(&mut self, cb: Arc<DiscoveryCallback<D>>) -> (id:
        DiscoveryCallbackId)
        ensures
            id == DiscoveryCallbackId(old(self)@.next_number()),
            final(self)@ == old(self)@.next(PortEvent::InstallDiscoveryCallback(cb, id)),
    {
        let id = DiscoveryCallbackId(self.state.next_u64());
        self.state.record(FakeCall::InstallDiscoveryCallback(id));
        let ghost installed = cb;
        self.state.discovery_callbacks.insert(id.0, cb);
        self.state.note(Ghost(PortEvent::InstallDiscoveryCallback(installed, id)));
        id
    }

    fn uninstall_discovery_callback(&mut self, id: DiscoveryCallbackId)
        ensures
            final(self)@ == old(self)@.next(PortEvent::UninstallDiscoveryCallback(id)),
    {
        self.state.record(FakeCall::UninstallDiscoveryCallback(id));
        self.state.discovery_callbacks.remove(&id.0);
        self.state.note(Ghost(PortEvent::UninstallDiscoveryCallback(id)));
    }
}

} // verus!
