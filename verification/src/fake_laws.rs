//! What holds of the fake runtime across calls.

use std::sync::Arc;

use vstd::prelude::*;

use crate::callback::DiscoveryCallback;
use crate::error::VmbError;
use crate::failures::Method;
use crate::fake::FakeVmbRuntime;
use crate::fake_model::{
    call_of, calls_of, failure_of, identifiers_of, lemma_calls_of_push, method_of, FakeView,
    QUEUED_OUTSIDE_CAPTURE,
};
use crate::frame::Frame;
use crate::ids::law_numbers_differ;
use crate::port::{all_allowed, lemma_port_state_push, model_after, port_state, History, PortEvent};
use crate::types::{
    CameraHandle, DiscoveryCallbackId, DiscoveryEvent, DiscoveryRegistrationHandle,
};

verus! {

/// More calls add to the counts, and use up failures that were armed for them
/// only.
proof fn lemma_after_calls<F, D>(fake: FakeView<F, D>, events: History<F, D>)
    where
        F: for <'a>Fn(&Frame<'a>) + Send + Sync + 'static,
        D: Fn(DiscoveryEvent) + Send + Sync + 'static,
    ensures
        ({
            let after = model_after::<FakeVmbRuntime<F, D>>(fake, events);
            &&& forall|m: Method| #[trigger]
                calls_of(after.history, m) == calls_of(fake.history, m) + calls_of(events, m)
            &&& forall|m: Method, c: nat|
                c >= calls_of(after.history, m) ==> {
                    &&& #[trigger] after.failures.contains_key((m, c))
                        == fake.failures.contains_key((m, c))
                    &&& after.failures[(m, c)] == fake.failures[(m, c)]
                }
        }),
    decreases events.len(),
{
    if events.len() > 0 {
        let before = model_after::<FakeVmbRuntime<F, D>>(fake, events.drop_last());
        lemma_after_calls(fake, events.drop_last());
        lemma_calls_of_push(before.history, events.last());
        let after = model_after::<FakeVmbRuntime<F, D>>(fake, events);
        assert(after.history == before.history.push(events.last()));
        assert forall|m: Method| #[trigger]
            calls_of(after.history, m) == calls_of(fake.history, m) + calls_of(events, m) by {
            assert(calls_of(before.history, m) == calls_of(fake.history, m) + calls_of(
                events.drop_last(),
                m,
            ));
        }
        assert forall|m: Method, c: nat| c >= calls_of(after.history, m) implies {
            &&& #[trigger] after.failures.contains_key((m, c)) == fake.failures.contains_key((m, c))
            &&& after.failures[(m, c)] == fake.failures[(m, c)]
        } by {
            assert(before.failures.contains_key((m, c)) == fake.failures.contains_key((m, c)));
        }
    }
}

/// `fail_nth` makes exactly the `skip`-th future call of the method fail: after
/// any further calls, the next call of a method fails with the armed error if it
/// is that one, and otherwise does what it would have done anyway.
pub proof fn law_nth_future_call_fails<F, D>(
    fake: FakeView<F, D>,
    method: Method,
    skip: nat,
    err: VmbError,
    events: History<F, D>,
    next: Method,
)
    where
        F: for <'a>Fn(&Frame<'a>) + Send + Sync + 'static,
        D: Fn(DiscoveryEvent) + Send + Sync + 'static,
    ensures
        model_after::<FakeVmbRuntime<F, D>>(fake.armed(method, skip, err), events).injected(next)
            == if next == method && calls_of(events, method) == skip {
            Some(err)
        } else {
            model_after::<FakeVmbRuntime<F, D>>(fake, events).injected(next)
        },
{
    let armed = fake.armed(method, skip, err);
    lemma_after_calls(fake, events);
    lemma_after_calls(armed, events);
    let c = calls_of(model_after::<FakeVmbRuntime<F, D>>(fake, events).history, next);
    assert(c == calls_of(model_after::<FakeVmbRuntime<F, D>>(armed, events).history, next));
    assert(model_after::<FakeVmbRuntime<F, D>>(armed, events).failures.contains_key((next, c))
        == armed.failures.contains_key((next, c)));
    assert(model_after::<FakeVmbRuntime<F, D>>(fake, events).failures.contains_key((next, c))
        == fake.failures.contains_key((next, c)));
}

/// A failure is used up by the call it was armed for: once that call is made,
/// it is as if it had never been armed.
pub proof fn law_failure_is_used_up<F, D>(
    fake: FakeView<F, D>,
    method: Method,
    err: VmbError,
    event: PortEvent<F, D>,
)
    requires
        method_of(event) == Some(method),
    ensures
        fake.armed(method, 0, err).next(event) == fake.next(event),
{
    let key = (method, calls_of(fake.history, method));
    assert(fake.failures.insert(key, err).remove(key) =~= fake.failures.remove(key));
}

/// A call that is made to fail returns its error, and with that call exactly the one
/// failure is used up. A call that is not made to fail leaves the armed failures as
/// they are, and fails only if the runtime is started already or a slot is queued
/// outside a capture. Either way the call counts once, for its own method alone,
/// and the answers that were set stay.
pub proof fn law_call_takes_its_failure<F, D>(
    fake: FakeView<F, D>,
    method: Method,
    event: PortEvent<F, D>,
)
    requires
        method_of(event) == Some(method),
        fake.allows(event),
    ensures
        match fake.injected(method) {
            Some(e) => {
                &&& failure_of(event) == Some(e)
                &&& fake.next(event).failures == fake.failures.remove(
                    (method, calls_of(fake.history, method)),
                )
            },
            None => {
                &&& failure_of(event) == match event {
                    PortEvent::Startup(_) => if fake.port().started {
                        Some(VmbError::AlreadyStarted)
                    } else {
                        None
                    },
                    PortEvent::QueueFrame(h, _, _, _) => if fake.port().capturing(h) {
                        None
                    } else {
                        Some(VmbError::InvalidString { context: QUEUED_OUTSIDE_CAPTURE })
                    },
                    _ => None,
                }
                &&& fake.next(event).failures == fake.failures
            },
        },
        forall|m: Method| #[trigger]
            calls_of(fake.next(event).history, m) == calls_of(fake.history, m) + if m == method {
                1nat
            } else {
                0nat
            },
        fake.next(event).camera_list == fake.camera_list,
        fake.next(event).payload_size == fake.payload_size,
{
    lemma_calls_of_push(fake.history, event);
    if fake.injected(method) is None {
        let key = (method, calls_of(fake.history, method));
        assert(fake.failures.remove(key) =~= fake.failures);
    }
}

/// With nothing armed, no call is made to fail.
pub proof fn law_nothing_armed_nothing_injected<F, D>(fake: FakeView<F, D>, method: Method)
    requires
        fake.failures =~= Map::<(Method, nat), VmbError>::empty(),
    ensures
        fake.injected(method) is None,
{
}

/// Every call is recorded, in order, behind those before it.
pub proof fn law_calls_are_recorded_in_order<F, D>(fake: FakeView<F, D>, event: PortEvent<F, D>)
    ensures
        fake.next(event).calls() == fake.calls().push(call_of(event)),
{
    assert(fake.next(event).calls() =~= fake.calls().push(call_of(event)));
}

/// A failed startup leaves the runtime as it was, a successful one leaves it
/// started, and a shutdown leaves it stopped, started or not.
pub proof fn law_startup_and_shutdown<F, D>(
    history: History<F, D>,
    r: Result<(), VmbError>,
)
    ensures
        port_state(history.push(PortEvent::Startup(r))).started == (r is Ok || port_state(
            history,
        ).started),
        !port_state(history.push(PortEvent::Shutdown)).started,
{
    lemma_port_state_push(history, PortEvent::Startup(r));
    lemma_port_state_push(history, PortEvent::Shutdown);
}

/// The lookup by ID has one answer.
pub proof fn law_lookup_has_one_answer<F, D>(
    fake: FakeView<F, D>,
    a: u64,
    b: u64,
    id: Seq<char>,
)
    requires
        fake.is_first_with_id(a, id),
        fake.is_first_with_id(b, id),
    ensures
        a == b,
{
}

/// A camera that is opened under an ID no open camera has is found under it.
pub proof fn law_opened_camera_is_found<F, D>(fake: FakeView<F, D>, raw: u64, id: Seq<char>)
    requires
        forall|other: u64| #[trigger]
            fake.cameras.contains_key(other) ==> fake.cameras[other] != id,
    ensures
        (FakeView { cameras: fake.cameras.insert(raw, id), ..fake }).is_first_with_id(raw, id),
{
}

/// Opening a second camera under the same ID does not hide the first, which has
/// the lower handle.
pub proof fn law_earlier_handle_wins<F, D>(
    fake: FakeView<F, D>,
    first: u64,
    second: u64,
    id: Seq<char>,
)
    requires
        fake.is_first_with_id(first, id),
        first < second,
    ensures
        (FakeView { cameras: fake.cameras.insert(second, id), ..fake }).is_first_with_id(
            first,
            id,
        ),
{
}

/// Once the camera that was opened first is closed, one that was opened later
/// under the same ID is found, if it is the only one left.
pub proof fn law_later_handle_wins_once_earlier_is_dropped<F, D>(
    fake: FakeView<F, D>,
    first: u64,
    second: u64,
    id: Seq<char>,
)
    requires
        first != second,
        fake.cameras.contains_key(second),
        fake.cameras[second] == id,
        forall|other: u64| #[trigger]
            fake.cameras.contains_key(other) && fake.cameras[other] == id ==> other == first
                || other == second,
    ensures
        (FakeView { cameras: fake.cameras.remove(first), ..fake }).is_first_with_id(second, id),
{
}

/// Closing a camera drops its binding, however it was opened: the cameras that are
/// left are those that were open before it.
pub proof fn law_close_drops_the_binding<F, D>(
    fake: FakeView<F, D>,
    h: CameraHandle,
    id: Seq<char>,
)
    requires
        !fake.cameras.contains_key(h@),
    ensures
        (FakeView { cameras: fake.cameras.insert(h@, id), ..fake }).next(
            PortEvent::CloseCamera(h),
        ).cameras == fake.cameras,
{
    assert(fake.cameras.insert(h@, id).remove(h@) =~= fake.cameras);
}

/// A callback that is installed and registered is among those that discovery events
/// are driven through.
pub proof fn law_registered_callback_is_driven<F, D>(
    fake: FakeView<F, D>,
    cb: DiscoveryCallbackId,
    r: DiscoveryRegistrationHandle,
)
    requires
        fake.port().discovery_callbacks.contains_key(cb.0),
    ensures
        ({
            let after = fake.next(PortEvent::RegisterDiscovery(cb, Ok(r)));
            &&& after.subscribed().contains_key(cb.0)
            &&& after.subscribed()[cb.0] == fake.port().discovery_callbacks[cb.0]
        }),
{
    let event = PortEvent::RegisterDiscovery(cb, Ok(r));
    lemma_port_state_push(fake.history, event);
    assert(fake.next(event).port().discovery_regs.contains_key(r.0));
}

/// Ending the last registration of a callback takes it out of those that are driven,
/// though it is still installed.
pub proof fn law_unregistered_callback_is_not_driven<F, D>(
    fake: FakeView<F, D>,
    id: DiscoveryCallbackId,
    r: DiscoveryRegistrationHandle,
)
    requires
        forall|other: u64| #[trigger]
            fake.port().discovery_regs.contains_key(other)
                && fake.port().discovery_regs[other].0 == id.0 ==> other == r.0,
    ensures
        !fake.next(PortEvent::UnregisterDiscovery(r)).subscribed().contains_key(id.0),
{
    let event = PortEvent::UnregisterDiscovery(r);
    lemma_port_state_push(fake.history, event);
    let left = fake.next(event).port().discovery_regs;
    assert forall|other: u64| #[trigger] left.contains_key(other) implies left[other].0
        != id.0 by {
        assert(fake.port().discovery_regs.contains_key(other));
    }
}

/// Installing a callback without registering it does not change who is driven.
pub proof fn law_installed_callback_is_not_driven<F, D>(
    fake: FakeView<F, D>,
    cb: Arc<DiscoveryCallback<D>>,
    id: DiscoveryCallbackId,
)
    requires
        !fake.registered(id.0),
    ensures
        fake.next(PortEvent::InstallDiscoveryCallback(cb, id)).subscribed() == fake.subscribed(),
{
    let event = PortEvent::InstallDiscoveryCallback(cb, id);
    lemma_port_state_push(fake.history, event);
    assert(fake.next(event).port().discovery_regs == fake.port().discovery_regs);
    assert(fake.next(event).subscribed() =~= fake.subscribed());
}

/// The identifiers that calls give out, of whatever kind, are consecutive numbers
/// that go on from the identifiers given out before, unless they wrap around on the
/// way. From a fresh fake they are 1, 2, 3 and so on: none is zero, and none is given
/// out twice.
pub proof fn law_identifiers_count_up<F, D>(fake: FakeView<F, D>, events: History<F, D>)
    where
        F: for <'a>Fn(&Frame<'a>) + Send + Sync + 'static,
        D: Fn(DiscoveryEvent) + Send + Sync + 'static,
    requires
        all_allowed::<FakeVmbRuntime<F, D>>(fake, events),
        fake.issued + identifiers_of(events).len() <= u64::MAX,
    ensures
        model_after::<FakeVmbRuntime<F, D>>(fake, events).issued == fake.issued + identifiers_of(
            events,
        ).len(),
        forall|i: int|
            0 <= i < identifiers_of(events).len() ==> #[trigger] identifiers_of(events)[i]
                == fake.issued + i + 1,
    decreases events.len(),
{
    if events.len() > 0 {
        law_identifiers_count_up(fake, events.drop_last());
    }
}

/// No two identifiers are the same until all `u64` values were given out.
pub proof fn law_identifiers_differ<F, D>(a: FakeView<F, D>, b: FakeView<F, D>)
    requires
        a.issued < b.issued < a.issued + 0x1_0000_0000_0000_0000,
    ensures
        a.next_number() != b.next_number(),
{
    law_numbers_differ(a.issued, b.issued);
}

} // verus!
