//! What each call to the fake runtime answers and changes, written out.
//!
//! The laws speak of any two states of the fake between which one call was made, and
//! of the fields of those states.

use std::sync::Arc;

use vstd::prelude::*;

use crate::callback::{DiscoveryCallback, FrameCallback};
use crate::error::VmbError;
use crate::failures::{FailurePlan, Method};
use crate::fake::{lists_by, lists_each_once, FakeCall, FakeVmbRuntime};
use crate::fake_model::{calls_of, lemma_calls_of_push, CallView, FakeView};
use crate::frame::Frame;
use crate::ids::number;
use crate::port::{advanced, lemma_port_state_push, port_state, History, PortEvent, RuntimeModel};
use crate::types::{
    CameraHandle, CameraInfo, DiscoveryCallbackId, DiscoveryEvent, DiscoveryRegistrationHandle,
    FrameCallbackId, FrameSlotId,
};

verus! {

/// Every call counts for its own method, whatever it was answered, and for no other:
/// the methods are told apart by the call alone. Before the first call every count is
/// zero.
pub proof fn law_every_call_counts<F, D>(history: History<F, D>, e: PortEvent<F, D>, m: Method)
    ensures
        calls_of(Seq::<PortEvent<F, D>>::empty(), m) == 0,
        calls_of(history.push(e), m) == calls_of(history, m) + if match m {
            Method::Startup => e is Startup,
            Method::ListCameras => e is ListCameras,
            Method::OpenCamera => e is OpenCamera,
            Method::LoadSettings => e is LoadSettings,
            Method::GetFeatureInt => e is GetFeatureInt,
            Method::GetFeatureFloat => e is GetFeatureFloat,
            Method::SetFeatureFloat => e is SetFeatureFloat,
            Method::SetFeatureEnum => e is SetFeatureEnum,
            Method::RunFeatureCommand => e is RunFeatureCommand,
            Method::PayloadSize => e is PayloadSize,
            Method::AnnounceFrame => e is AnnounceFrame,
            Method::CaptureStart => e is CaptureStart,
            Method::QueueFrame => e is QueueFrame,
            Method::RegisterDiscovery => e is RegisterDiscovery,
        } {
            1nat
        } else {
            0nat
        },
{
    lemma_calls_of_push(history, e);
}

/// The failure injected into the next call of a method is the one armed for as many
/// calls as were made so far.
pub proof fn law_injected_failure_is_the_one_armed_for_this_call<F, D>(
    fake: FakeView<F, D>,
    m: Method,
    e: VmbError,
)
    ensures
        fake.injected(m) == Some(e) <==> fake.failures.contains_key(
            (m, calls_of(fake.history, m)),
        ) && fake.failures[(m, calls_of(fake.history, m))] == e,
{
}

/// Arming adds one failure, for the call that comes after as many more calls of the
/// method as are to be skipped, in place of one that was armed for that call. Other
/// failures, and everything else, stay.
pub proof fn law_arming_adds_one_failure<F, D>(
    fake: FakeView<F, D>,
    m: Method,
    skip: nat,
    err: VmbError,
    other: Method,
    c: nat,
)
    ensures
        ({
            let armed = fake.armed(m, skip, err);
            &&& if other == m && c == calls_of(fake.history, m) + skip {
                armed.failures.contains_key((other, c)) && armed.failures[(other, c)] == err
            } else {
                &&& armed.failures.contains_key((other, c)) == fake.failures.contains_key(
                    (other, c),
                )
                &&& armed.failures[(other, c)] == fake.failures[(other, c)]
            }
            &&& armed.history == fake.history
            &&& armed.cameras == fake.cameras
            &&& armed.camera_list == fake.camera_list
            &&& armed.payload_size == fake.payload_size
            &&& armed.issued == fake.issued
        }),
{
}

/// A failure comes due by counting down: armed to skip no call it is injected into the
/// next one; a call of the method takes one off what is left to skip, whatever that
/// call is answered; a call of another method takes off nothing.
pub proof fn law_armed_failure_counts_down<F, D>(
    fake: FakeView<F, D>,
    m: Method,
    skip: nat,
    err: VmbError,
    e: PortEvent<F, D>,
)
    ensures
        fake.armed(m, 0, err).injected(m) == Some(err),
        ({
            let called = match m {
                Method::Startup => e is Startup,
                Method::ListCameras => e is ListCameras,
                Method::OpenCamera => e is OpenCamera,
                Method::LoadSettings => e is LoadSettings,
                Method::GetFeatureInt => e is GetFeatureInt,
                Method::GetFeatureFloat => e is GetFeatureFloat,
                Method::SetFeatureFloat => e is SetFeatureFloat,
                Method::SetFeatureEnum => e is SetFeatureEnum,
                Method::RunFeatureCommand => e is RunFeatureCommand,
                Method::PayloadSize => e is PayloadSize,
                Method::AnnounceFrame => e is AnnounceFrame,
                Method::CaptureStart => e is CaptureStart,
                Method::QueueFrame => e is QueueFrame,
                Method::RegisterDiscovery => e is RegisterDiscovery,
            };
            &&& called ==> fake.armed(m, skip + 1, err).next(e).failures == fake.next(e).armed(
                m,
                skip,
                err,
            ).failures
            &&& !called ==> fake.armed(m, skip, err).next(e).failures == fake.next(e).armed(
                m,
                skip,
                err,
            ).failures
        }),
{
    lemma_calls_of_push(fake.history, e);
    let later = fake.armed(m, skip + 1, err).next(e).failures;
    let now = fake.armed(m, skip, err).next(e).failures;
    let after = fake.next(e).armed(m, skip, err).failures;
    if calls_of(fake.history.push(e), m) == calls_of(fake.history, m) {
        assert(now =~= after);
    } else {
        assert(later =~= after);
    }
}

/// A failure that is due is the one under the method and the number of its calls so far.
pub proof fn law_due_failure_is_under_the_count(plan: FailurePlan, m: Method, e: VmbError)
    ensures
        plan.due(m) == Some(e) <==> plan@.contains_key((m, plan.made(m))) && plan@[(
            m,
            plan.made(m),
        )] == e,
{
}

/// A fresh fake lists no camera, asks for 1024 bytes, and has nothing called, open,
/// armed or given out.
pub proof fn law_fresh_fake_is_empty<F, D>(m: Method, c: nat, key: u64)
    ensures
        ({
            let fresh = FakeView::<F, D>::fresh();
            &&& fresh.history.len() == 0
            &&& !fresh.cameras.contains_key(key)
            &&& !fresh.failures.contains_key((m, c))
            &&& fresh.camera_list.len() == 0
            &&& fresh.payload_size == 1024
            &&& fresh.issued == 0
        }),
{
}

/// A call is answered with the failure injected into its method, and otherwise with
/// success and its value.
pub proof fn law_answer_is_the_failure_or_the_value<F, D, T>(
    fake: FakeView<F, D>,
    m: Method,
    r: Result<T, VmbError>,
    value: T,
)
    requires
        fake.answers(m, r, value),
    ensures
        fake.injected(m) matches Some(e) ==> r == Err::<T, VmbError>(e),
        fake.injected(m) is None ==> r == Ok::<T, VmbError>(value),
{
}

/// What a call answers. If a failure is injected into it, that failure; otherwise:
/// startup succeeds unless the runtime is started; the cameras and the payload size are
/// those that were set; a feature reads as zero; a slot may only be queued during a
/// capture; everything else succeeds; and an identifier is the next number.
pub proof fn law_call_is_answered<F, D>(
    before: FakeVmbRuntime<F, D>,
    after: FakeVmbRuntime<F, D>,
    event: PortEvent<F, D>,
)
    where
        F: for <'a>Fn(&Frame<'a>) + Send + Sync + 'static,
        D: Fn(DiscoveryEvent) + Send + Sync + 'static,
    requires
        advanced(before, after, event),
    ensures
        match event {
            PortEvent::Startup(r) => match before@.injected(Method::Startup) {
                Some(e) => r == Err::<(), VmbError>(e),
                None => r == if port_state(before@.history).started {
                    Err::<(), VmbError>(VmbError::AlreadyStarted)
                } else {
                    Ok(())
                },
            },
            PortEvent::ListCameras(r) => match before@.injected(Method::ListCameras) {
                Some(e) => r == Err::<Seq<CameraInfo>, VmbError>(e),
                None => r == Ok::<Seq<CameraInfo>, VmbError>(before@.camera_list),
            },
            PortEvent::OpenCamera(_, r) => match before@.injected(Method::OpenCamera) {
                Some(e) => r == Err::<CameraHandle, VmbError>(e),
                None => r is Ok && r->Ok_0@ == number(before@.issued),
            },
            PortEvent::LoadSettings(_, _, r) => match before@.injected(Method::LoadSettings) {
                Some(e) => r == Err::<(), VmbError>(e),
                None => r == Ok::<(), VmbError>(()),
            },
            PortEvent::GetFeatureInt(_, _, r) => match before@.injected(Method::GetFeatureInt) {
                Some(e) => r == Err::<i64, VmbError>(e),
                None => r == Ok::<i64, VmbError>(0),
            },
            PortEvent::GetFeatureFloat(_, _, r) => match before@.injected(
                Method::GetFeatureFloat,
            ) {
                Some(e) => r == Err::<u64, VmbError>(e),
                None => r == Ok::<u64, VmbError>(0),
            },
            PortEvent::SetFeatureFloat(_, _, _, r) => match before@.injected(
                Method::SetFeatureFloat,
            ) {
                Some(e) => r == Err::<(), VmbError>(e),
                None => r == Ok::<(), VmbError>(()),
            },
            PortEvent::SetFeatureEnum(_, _, _, r) => match before@.injected(
                Method::SetFeatureEnum,
            ) {
                Some(e) => r == Err::<(), VmbError>(e),
                None => r == Ok::<(), VmbError>(()),
            },
            PortEvent::RunFeatureCommand(_, _, r) => match before@.injected(
                Method::RunFeatureCommand,
            ) {
                Some(e) => r == Err::<(), VmbError>(e),
                None => r == Ok::<(), VmbError>(()),
            },
            PortEvent::PayloadSize(_, r) => match before@.injected(Method::PayloadSize) {
                Some(e) => r == Err::<u32, VmbError>(e),
                None => r == Ok::<u32, VmbError>(before@.payload_size),
            },
            PortEvent::AnnounceFrame(_, _, r) => match before@.injected(Method::AnnounceFrame) {
                Some(e) => r == Err::<FrameSlotId, VmbError>(e),
                None => r is Ok && r->Ok_0.0 == number(before@.issued),
            },
            PortEvent::CaptureStart(_, r) => match before@.injected(Method::CaptureStart) {
                Some(e) => r == Err::<(), VmbError>(e),
                None => r == Ok::<(), VmbError>(()),
            },
            PortEvent::QueueFrame(h, _, _, r) => match before@.injected(Method::QueueFrame) {
                Some(e) => r == Err::<(), VmbError>(e),
                None => r == if port_state(before@.history).active.contains_key(h@) {
                    Ok(())
                } else {
                    Err::<(), VmbError>(
                        VmbError::InvalidString { context: "frame queued outside a capture" },
                    )
                },
            },
            PortEvent::RegisterDiscovery(_, r) => match before@.injected(
                Method::RegisterDiscovery,
            ) {
                Some(e) => r == Err::<DiscoveryRegistrationHandle, VmbError>(e),
                None => r is Ok && r->Ok_0.0 == number(before@.issued),
            },
            PortEvent::InstallFrameCallback(_, id) => id.0 == number(before@.issued),
            PortEvent::InstallDiscoveryCallback(_, id) => id.0 == number(before@.issued),
            _ => true,
        },
{
}

/// What a call changes besides what it claims: it goes into the history; it takes an
/// identifier if it gives one out, and none otherwise; and the answers that were set
/// stay.
pub proof fn law_call_is_noted<F, D>(
    before: FakeVmbRuntime<F, D>,
    after: FakeVmbRuntime<F, D>,
    event: PortEvent<F, D>,
)
    where
        F: for <'a>Fn(&Frame<'a>) + Send + Sync + 'static,
        D: Fn(DiscoveryEvent) + Send + Sync + 'static,
    requires
        advanced(before, after, event),
    ensures
        after.wf(),
        after@.history == before@.history.push(event),
        after@.camera_list == before@.camera_list,
        after@.payload_size == before@.payload_size,
        after@.issued == before@.issued + match event {
            PortEvent::OpenCamera(_, Ok(_)) => 1nat,
            PortEvent::AnnounceFrame(_, _, Ok(_)) => 1nat,
            PortEvent::RegisterDiscovery(_, Ok(_)) => 1nat,
            PortEvent::InstallFrameCallback(_, _) => 1nat,
            PortEvent::InstallDiscoveryCallback(_, _) => 1nat,
            _ => 0nat,
        },
{
}

/// An open that succeeds binds its handle to the ID, and closing a camera drops the
/// binding of its handle, in every state of the fake. Every other binding stays, and so
/// do all of them under any other call.
pub proof fn law_bindings_change_one_at_a_time<F, D>(
    before: FakeVmbRuntime<F, D>,
    after: FakeVmbRuntime<F, D>,
    event: PortEvent<F, D>,
    key: u64,
)
    where
        F: for <'a>Fn(&Frame<'a>) + Send + Sync + 'static,
        D: Fn(DiscoveryEvent) + Send + Sync + 'static,
    requires
        advanced(before, after, event),
    ensures
        ({
            let same = after@.cameras.contains_key(key) == before@.cameras.contains_key(key) && (
            before@.cameras.contains_key(key) ==> after@.cameras[key] == before@.cameras[key]);
            match event {
                PortEvent::OpenCamera(id, Ok(h)) => if key == h@ {
                    after@.cameras.contains_key(key) && after@.cameras[key] == id
                } else {
                    same
                },
                PortEvent::CloseCamera(h) => if key == h@ {
                    !after@.cameras.contains_key(key)
                } else {
                    same
                },
                _ => same,
            }
        }),
{
}

/// The same of the model, where no call that was made is at hand: an open that
/// succeeds adds one binding, whatever state the fake is in.
pub proof fn law_open_binds_the_handle<F, D>(fake: FakeView<F, D>, id: Seq<char>, h: CameraHandle)
    ensures
        fake.next(PortEvent::OpenCamera(id, Ok(h))).cameras == fake.cameras.insert(h@, id),
        fake.next(PortEvent::CloseCamera(h)).cameras == fake.cameras.remove(h@),
{
}

/// A camera that is opened under an ID that no open camera has is found under it after
/// the call, whatever state the fake is in.
pub proof fn law_opened_camera_is_found_after_the_call<F, D>(
    before: FakeVmbRuntime<F, D>,
    after: FakeVmbRuntime<F, D>,
    id: Seq<char>,
    h: CameraHandle,
)
    where
        F: for <'a>Fn(&Frame<'a>) + Send + Sync + 'static,
        D: Fn(DiscoveryEvent) + Send + Sync + 'static,
    requires
        advanced(before, after, PortEvent::OpenCamera(id, Ok(h))),
        forall|other: u64| #[trigger]
            before@.cameras.contains_key(other) ==> before@.cameras[other] != id,
    ensures
        after@.is_first_with_id(h@, id),
{
}

/// The handle found under an ID is open, bound to that ID, and not above any other that
/// is bound to it; and a handle for which that holds is the one that is found.
pub proof fn law_found_handle_is_bound_to_the_id<F, D>(
    fake: FakeView<F, D>,
    raw: u64,
    id: Seq<char>,
)
    ensures
        fake.is_first_with_id(raw, id) <==> {
            &&& fake.cameras.contains_key(raw)
            &&& fake.cameras[raw] == id
            &&& forall|other: u64|
                other < raw && #[trigger] fake.cameras.contains_key(other) ==> fake.cameras[other]
                    != id
        },
{
}

/// A call uses up the failure that was armed for it, and no other failure: one stays
/// armed for another method, for another number of calls, and under a call that cannot
/// fail.
pub proof fn law_call_uses_up_its_own_failure_only<F, D>(
    before: FakeVmbRuntime<F, D>,
    after: FakeVmbRuntime<F, D>,
    e: PortEvent<F, D>,
    m: Method,
    c: nat,
)
    where
        F: for <'a>Fn(&Frame<'a>) + Send + Sync + 'static,
        D: Fn(DiscoveryEvent) + Send + Sync + 'static,
    requires
        advanced(before, after, e),
    ensures
        ({
            let called = match m {
                Method::Startup => e is Startup,
                Method::ListCameras => e is ListCameras,
                Method::OpenCamera => e is OpenCamera,
                Method::LoadSettings => e is LoadSettings,
                Method::GetFeatureInt => e is GetFeatureInt,
                Method::GetFeatureFloat => e is GetFeatureFloat,
                Method::SetFeatureFloat => e is SetFeatureFloat,
                Method::SetFeatureEnum => e is SetFeatureEnum,
                Method::RunFeatureCommand => e is RunFeatureCommand,
                Method::PayloadSize => e is PayloadSize,
                Method::AnnounceFrame => e is AnnounceFrame,
                Method::CaptureStart => e is CaptureStart,
                Method::QueueFrame => e is QueueFrame,
                Method::RegisterDiscovery => e is RegisterDiscovery,
            };
            if called && c == calls_of(before@.history, m) {
                !after@.failures.contains_key((m, c))
            } else {
                &&& after@.failures.contains_key((m, c)) == before@.failures.contains_key((m, c))
                &&& before@.failures.contains_key((m, c)) ==> after@.failures[(m, c)]
                    == before@.failures[(m, c)]
            }
        }),
{
}

/// The log gets one entry for a call: which call it was, with its arguments, and for an
/// installation the ID that it returned. The entries before it stay.
pub proof fn law_call_is_logged<F, D>(
    before: FakeVmbRuntime<F, D>,
    after: FakeVmbRuntime<F, D>,
    event: PortEvent<F, D>,
)
    where
        F: for <'a>Fn(&Frame<'a>) + Send + Sync + 'static,
        D: Fn(DiscoveryEvent) + Send + Sync + 'static,
    requires
        advanced(before, after, event),
    ensures
        after@.calls() == before@.calls().push(
            match event {
                PortEvent::Startup(_) => CallView::Startup,
                PortEvent::Shutdown => CallView::Shutdown,
                PortEvent::ListCameras(_) => CallView::ListCameras,
                PortEvent::OpenCamera(id, _) => CallView::OpenCamera(id),
                PortEvent::CloseCamera(h) => CallView::CloseCamera(h),
                PortEvent::LoadSettings(h, path, _) => CallView::LoadSettings(h, path),
                PortEvent::GetFeatureInt(h, name, _) => CallView::GetFeatureInt(h, name),
                PortEvent::GetFeatureFloat(h, name, _) => CallView::GetFeatureFloat(h, name),
                PortEvent::SetFeatureFloat(h, name, bits, _) => CallView::SetFeatureFloat(
                    h,
                    name,
                    bits,
                ),
                PortEvent::SetFeatureEnum(h, name, value, _) => CallView::SetFeatureEnum(
                    h,
                    name,
                    value,
                ),
                PortEvent::RunFeatureCommand(h, name, _) => CallView::RunFeatureCommand(h, name),
                PortEvent::PayloadSize(h, _) => CallView::PayloadSize(h),
                PortEvent::AnnounceFrame(h, size, _) => CallView::AnnounceFrame(h, size),
                PortEvent::CaptureStart(h, _) => CallView::CaptureStart(h),
                PortEvent::QueueFrame(h, slot, cb, _) => CallView::QueueFrame(h, slot, cb),
                PortEvent::CaptureEnd(h) => CallView::CaptureEnd(h),
                PortEvent::CaptureQueueFlush(h) => CallView::CaptureQueueFlush(h),
                PortEvent::FrameRevokeAll(h) => CallView::FrameRevokeAll(h),
                PortEvent::RegisterDiscovery(cb, _) => CallView::RegisterDiscovery(cb),
                PortEvent::UnregisterDiscovery(r) => CallView::UnregisterDiscovery(r),
                PortEvent::InstallFrameCallback(_, id) => CallView::InstallFrameCallback(id),
                PortEvent::UninstallFrameCallback(id) => CallView::UninstallFrameCallback(id),
                PortEvent::InstallDiscoveryCallback(_, id) => CallView::InstallDiscoveryCallback(
                    id,
                ),
                PortEvent::UninstallDiscoveryCallback(id) => CallView::UninstallDiscoveryCallback(
                    id,
                ),
            },
        ),
        before@.calls().len() == before@.history.len(),
{
    assert(after@.calls().drop_last() =~= before@.calls());
    assert(after@.calls() =~= before@.calls().push(after@.calls().last()));
}

/// A logged call stands for what was called, argument by argument.
pub proof fn law_logged_call_holds_its_arguments(
    h: CameraHandle,
    text: String,
    value: String,
    number: u64,
    size: u32,
    slot: FrameSlotId,
    fcb: FrameCallbackId,
    dcb: DiscoveryCallbackId,
    r: DiscoveryRegistrationHandle,
)
    ensures
        FakeCall::Startup@ == CallView::Startup,
        FakeCall::Shutdown@ == CallView::Shutdown,
        FakeCall::ListCameras@ == CallView::ListCameras,
        FakeCall::OpenCamera(text)@ == CallView::OpenCamera(text@),
        FakeCall::CloseCamera(h)@ == CallView::CloseCamera(h),
        FakeCall::LoadSettings(h, text)@ == CallView::LoadSettings(h, text@),
        FakeCall::GetFeatureInt(h, text)@ == CallView::GetFeatureInt(h, text@),
        FakeCall::GetFeatureFloat(h, text)@ == CallView::GetFeatureFloat(h, text@),
        FakeCall::SetFeatureFloat(h, text, number)@ == CallView::SetFeatureFloat(h, text@, number),
        FakeCall::SetFeatureEnum(h, text, value)@ == CallView::SetFeatureEnum(h, text@, value@),
        FakeCall::RunFeatureCommand(h, text)@ == CallView::RunFeatureCommand(h, text@),
        FakeCall::PayloadSize(h)@ == CallView::PayloadSize(h),
        FakeCall::AnnounceFrame(h, size)@ == CallView::AnnounceFrame(h, size),
        FakeCall::CaptureStart(h)@ == CallView::CaptureStart(h),
        FakeCall::QueueFrame(h, slot, fcb)@ == CallView::QueueFrame(h, slot, fcb),
        FakeCall::CaptureEnd(h)@ == CallView::CaptureEnd(h),
        FakeCall::CaptureQueueFlush(h)@ == CallView::CaptureQueueFlush(h),
        FakeCall::FrameRevokeAll(h)@ == CallView::FrameRevokeAll(h),
        FakeCall::RegisterDiscovery(dcb)@ == CallView::RegisterDiscovery(dcb),
        FakeCall::UnregisterDiscovery(r)@ == CallView::UnregisterDiscovery(r),
        FakeCall::InstallFrameCallback(fcb)@ == CallView::InstallFrameCallback(fcb),
        FakeCall::UninstallFrameCallback(fcb)@ == CallView::UninstallFrameCallback(fcb),
        FakeCall::InstallDiscoveryCallback(dcb)@ == CallView::InstallDiscoveryCallback(dcb),
        FakeCall::UninstallDiscoveryCallback(dcb)@ == CallView::UninstallDiscoveryCallback(dcb),
{
}

/// Giving out a number counts one more, and changes nothing else. The number is the
/// next one, and wraps around to zero only after `u64::MAX`.
pub proof fn law_number_is_given_out_once<F, D>(fake: FakeView<F, D>)
    ensures
        fake.issue().issued == fake.issued + 1,
        fake.issue().history == fake.history,
        fake.issue().cameras == fake.cameras,
        fake.issue().failures == fake.failures,
        fake.issue().camera_list == fake.camera_list,
        fake.issue().payload_size == fake.payload_size,
        fake.next_number() == number(fake.issued),
        fake.issued < u64::MAX ==> fake.next_number() == fake.issued + 1,
        fake.issued == u64::MAX ==> fake.next_number() == 0,
{
}

/// A camera can be opened as long as a number that is not zero is next, and also where
/// the open is made to fail, which takes no number.
pub proof fn law_open_needs_a_number_or_a_failure<F, D>(fake: FakeVmbRuntime<F, D>)
    where
        F: for <'a>Fn(&Frame<'a>) + Send + Sync + 'static,
        D: Fn(DiscoveryEvent) + Send + Sync + 'static,
    ensures
        fake.can_open() <==> number(fake@.issued) != 0 || fake@.injected(Method::OpenCamera)
            is Some,
{
}

/// What is claimed on the fake is what its history leaves claimed.
pub proof fn law_claims_are_those_of_the_history<F, D>(fake: FakeView<F, D>)
    ensures
        fake.port() == port_state(fake.history),
{
}

/// A discovery callback is driven if it is installed and some live registration refers
/// to it, and only then; what is driven is the closure installed under its ID.
pub proof fn law_driven_callback_is_installed_and_registered<F, D>(
    fake: FakeView<F, D>,
    id: u64,
    cb: Arc<DiscoveryCallback<D>>,
)
    ensures
        ({
            let state = port_state(fake.history);
            (fake.subscribed().contains_key(id) && fake.subscribed()[id] == cb) <==> {
                &&& state.discovery_callbacks.contains_key(id)
                &&& state.discovery_callbacks[id] == cb
                &&& exists|r: u64| #[trigger]
                    state.discovery_regs.contains_key(r) && state.discovery_regs[r].0 == id
            }
        }),
{
    if fake.subscribed().contains_key(id) {
        assert(fake.registered(id));
    }
}

/// Ending a registration leaves a callback driven that has another live one.
pub proof fn law_callback_with_another_registration_is_still_driven<F, D>(
    before: FakeVmbRuntime<F, D>,
    after: FakeVmbRuntime<F, D>,
    r: DiscoveryRegistrationHandle,
    id: u64,
    other: u64,
)
    where
        F: for <'a>Fn(&Frame<'a>) + Send + Sync + 'static,
        D: Fn(DiscoveryEvent) + Send + Sync + 'static,
    requires
        advanced(before, after, PortEvent::UnregisterDiscovery(r)),
        other != r.0,
        port_state(before@.history).discovery_regs.contains_key(other),
        port_state(before@.history).discovery_regs[other].0 == id,
        port_state(before@.history).discovery_callbacks.contains_key(id),
    ensures
        before@.subscribed().contains_key(id),
        after@.subscribed().contains_key(id),
        after@.subscribed()[id] == before@.subscribed()[id],
{
    lemma_port_state_push(before@.history, PortEvent::UnregisterDiscovery(r));
    assert(before@.port().discovery_regs.contains_key(other));
    assert(after@.port().discovery_regs.contains_key(other));
    assert(before@.registered(id));
    assert(after@.registered(id));
}

/// A frame of a camera goes to the closure that is installed under the ID with which
/// the oldest slot in the camera's queue was queued, and to none if the queue is empty
/// or that closure is gone.
pub proof fn law_frame_goes_to_the_oldest_slot<F, D>(
    fake: FakeView<F, D>,
    h: CameraHandle,
    cb: Arc<FrameCallback<F>>,
)
    ensures
        ({
            let state = port_state(fake.history);
            fake.frame_callback_for(h) == Some(cb) <==> {
                &&& state.active.contains_key(h@)
                &&& state.active[h@].len() > 0
                &&& state.frame_callbacks.contains_key(state.active[h@][0].1.0)
                &&& state.frame_callbacks[state.active[h@][0].1.0] == cb
            }
        }),
{
}

/// A list of each of the entries once misses none, holds nothing else, and is as long
/// as there are entries.
pub proof fn law_list_misses_none_and_holds_nothing_else<V>(
    list: Seq<&V>,
    entries: Map<u64, V>,
    key: u64,
    i: int,
)
    requires
        lists_each_once(list, entries),
    ensures
        entries.contains_key(key) ==> exists|j: int|
            0 <= j < list.len() && *#[trigger] list[j] == entries[key],
        0 <= i < list.len() ==> exists|k: u64| #[trigger]
            entries.contains_key(k) && entries[k] == *list[i],
        list.len() == entries.dom().len(),
{
    let keys = choose|keys: Seq<u64>| lists_by(list, entries, keys);
    keys.unique_seq_to_set();
    if entries.contains_key(key) {
        assert(keys.to_set().contains(key));
        let j = choose|j: int| 0 <= j < keys.len() && keys[j] == key;
        assert(*list[j] == entries[key]);
    }
    if 0 <= i < list.len() {
        assert(keys.to_set().contains(keys[i]));
        assert(entries.contains_key(keys[i]));
        assert(list[i] == entries[keys[i]]);
    }
}

} // verus!
