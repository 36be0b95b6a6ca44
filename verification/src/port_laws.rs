//! What each call does to what is claimed, entry by entry.
//!
//! Every law speaks of an arbitrary history and an arbitrary further call, and says of
//! one table of [`crate::port::PortState`] which entries the call adds, which it takes
//! away, and that all the others stay.

use vstd::prelude::*;

use crate::error::VmbError;
use crate::port::{
    advanced, all_allowed, lemma_port_state_push, listed, model_after, port_state, since, went,
    History, PortEvent, PortState, RuntimeModel,
};
use crate::types::{
    CameraHandle, CameraInfo, DiscoveryCallbackId, DiscoveryRegistrationHandle,
};

verus! {

/// Before the first call the runtime is not started, and nothing is claimed.
pub proof fn law_nothing_is_claimed_at_first<F, D>(key: u64)
    ensures
        ({
            let state = port_state(Seq::<PortEvent<F, D>>::empty());
            &&& !state.started
            &&& !state.announced.contains_key(key)
            &&& !state.active.contains_key(key)
            &&& !state.frame_callbacks.contains_key(key)
            &&& !state.discovery_callbacks.contains_key(key)
            &&& !state.discovery_regs.contains_key(key)
        }),
{
}

/// The runtime is started from a startup that succeeds until the next shutdown. No
/// other call, and no startup that fails, starts or stops it.
pub proof fn law_only_startup_and_shutdown_change_the_started_state<F, D>(
    history: History<F, D>,
    event: PortEvent<F, D>,
)
    ensures
        ({
            let before = port_state(history).started;
            let after = port_state(history.push(event)).started;
            match event {
                PortEvent::Startup(Ok(())) => after,
                PortEvent::Shutdown => !after,
                _ => after == before,
            }
        }),
{
    lemma_port_state_push(history, event);
}

/// A registration that succeeds adds its handle, with the callback it was made for;
/// ending a registration takes away its handle. Every other registration stays as it
/// was, and so do all of them under any other call.
pub proof fn law_registrations_change_one_at_a_time<F, D>(
    history: History<F, D>,
    event: PortEvent<F, D>,
    key: u64,
)
    ensures
        ({
            let before = port_state(history).discovery_regs;
            let after = port_state(history.push(event)).discovery_regs;
            let same = after.contains_key(key) == before.contains_key(key) && (before.contains_key(
                key,
            ) ==> after[key] == before[key]);
            match event {
                PortEvent::RegisterDiscovery(cb, Ok(r)) => if key == r.0 {
                    after.contains_key(key) && after[key] == cb
                } else {
                    same
                },
                PortEvent::UnregisterDiscovery(r) => if key == r.0 {
                    !after.contains_key(key)
                } else {
                    same
                },
                _ => same,
            }
        }),
{
    lemma_port_state_push(history, event);
}

/// Installing a discovery callback adds it under its ID, uninstalling takes it away.
/// Every other one stays, and so do all of them under any other call.
pub proof fn law_discovery_callbacks_change_one_at_a_time<F, D>(
    history: History<F, D>,
    event: PortEvent<F, D>,
    key: u64,
)
    ensures
        ({
            let before = port_state(history).discovery_callbacks;
            let after = port_state(history.push(event)).discovery_callbacks;
            let same = after.contains_key(key) == before.contains_key(key) && (before.contains_key(
                key,
            ) ==> after[key] == before[key]);
            match event {
                PortEvent::InstallDiscoveryCallback(cb, id) => if key == id.0 {
                    after.contains_key(key) && after[key] == cb
                } else {
                    same
                },
                PortEvent::UninstallDiscoveryCallback(id) => if key == id.0 {
                    !after.contains_key(key)
                } else {
                    same
                },
                _ => same,
            }
        }),
{
    lemma_port_state_push(history, event);
}

/// Installing a frame callback adds it under its ID, uninstalling takes it away. Every
/// other one stays, and so do all of them under any other call.
pub proof fn law_frame_callbacks_change_one_at_a_time<F, D>(
    history: History<F, D>,
    event: PortEvent<F, D>,
    key: u64,
)
    ensures
        ({
            let before = port_state(history).frame_callbacks;
            let after = port_state(history.push(event)).frame_callbacks;
            let same = after.contains_key(key) == before.contains_key(key) && (before.contains_key(
                key,
            ) ==> after[key] == before[key]);
            match event {
                PortEvent::InstallFrameCallback(cb, id) => if key == id.0 {
                    after.contains_key(key) && after[key] == cb
                } else {
                    same
                },
                PortEvent::UninstallFrameCallback(id) => if key == id.0 {
                    !after.contains_key(key)
                } else {
                    same
                },
                _ => same,
            }
        }),
{
    lemma_port_state_push(history, event);
}

/// An announced slot belongs to the camera it was announced for until the slots of that
/// camera are revoked. Slots of other cameras stay, and so do all slots under any other
/// call, one that fails to announce included in that.
pub proof fn law_slots_belong_to_their_camera<F, D>(
    history: History<F, D>,
    event: PortEvent<F, D>,
    key: u64,
)
    ensures
        ({
            let before = port_state(history).announced;
            let after = port_state(history.push(event)).announced;
            let same = after.contains_key(key) == before.contains_key(key) && (before.contains_key(
                key,
            ) ==> after[key] == before[key]);
            match event {
                PortEvent::AnnounceFrame(h, _, Ok(slot)) => if key == slot.0 {
                    after.contains_key(key) && after[key] == h@
                } else {
                    same
                },
                PortEvent::FrameRevokeAll(h) => if before.contains_key(key) && before[key] == h@ {
                    !after.contains_key(key)
                } else {
                    same
                },
                _ => same,
            }
        }),
{
    lemma_port_state_push(history, event);
}

/// A capture is live from a start that succeeds until it is ended or the camera is
/// closed. A slot goes to the end of the queue of the camera it is queued on, starting a
/// live capture again keeps its queue, and a flush empties the queue. The captures and
/// queues of other cameras stay, and so do all of them under any other call.
pub proof fn law_captures_change_one_camera_at_a_time<F, D>(
    history: History<F, D>,
    event: PortEvent<F, D>,
    key: u64,
)
    ensures
        ({
            let before = port_state(history).active;
            let after = port_state(history.push(event)).active;
            let same = after.contains_key(key) == before.contains_key(key) && (before.contains_key(
                key,
            ) ==> after[key] == before[key]);
            match event {
                PortEvent::CaptureStart(h, Ok(())) => if key == h@ && !before.contains_key(key) {
                    after.contains_key(key) && after[key].len() == 0
                } else {
                    same
                },
                PortEvent::QueueFrame(h, slot, cb, Ok(())) => if key == h@ {
                    &&& after.contains_key(key)
                    &&& after[key].len() == if before.contains_key(key) {
                        before[key].len() + 1
                    } else {
                        1
                    }
                    &&& after[key].last() == (slot, cb)
                    &&& before.contains_key(key) ==> forall|i: int|
                        0 <= i < before[key].len() ==> #[trigger] after[key][i] == before[key][i]
                } else {
                    same
                },
                PortEvent::CaptureQueueFlush(h) => if key == h@ && before.contains_key(key) {
                    after.contains_key(key) && after[key].len() == 0
                } else {
                    same
                },
                PortEvent::CaptureEnd(h) => if key == h@ {
                    !after.contains_key(key)
                } else {
                    same
                },
                PortEvent::CloseCamera(h) => if key == h@ {
                    !after.contains_key(key)
                } else {
                    same
                },
                _ => same,
            }
        }),
{
    lemma_port_state_push(history, event);
}

/// A camera captures if it has an entry among the live captures, and its queue is what
/// that entry holds; without one it has no queue.
pub proof fn law_queue_is_that_of_the_live_capture<F, D>(state: PortState<F, D>, h: CameraHandle)
    ensures
        state.capturing(h) <==> state.active.contains_key(h@),
        state.active.contains_key(h@) ==> state.queued(h) == state.active[h@],
        !state.active.contains_key(h@) ==> state.queued(h).len() == 0,
{
}

/// A call goes behind those made before it, and is the only one that is added.
pub proof fn law_one_call_extends_the_history<R: RuntimeModel>(
    before: R,
    after: R,
    event: PortEvent<R::FrameFn, R::DiscoveryFn>,
)
    requires
        advanced(before, after, event),
    ensures
        after.valid(),
        after.history() == before.history().push(event),
        R::allows(before.model(), event),
        after.model() == R::next(before.model(), event),
{
}

/// What came before stays in the history, and the calls since then are the rest of it.
pub proof fn law_earlier_calls_stay_in_the_history<R: RuntimeModel>(before: R, after: R, i: int)
    requires
        went(before, after),
    ensures
        after.valid(),
        before.history().len() <= after.history().len(),
        0 <= i < before.history().len() ==> after.history()[i] == before.history()[i],
        before.history().len() <= i < after.history().len() ==> since(
            before.history(),
            after.history(),
        )[i - before.history().len()] == after.history()[i],
        all_allowed::<R>(before.model(), since(before.history(), after.history())),
        after.model() == model_after::<R>(
            before.model(),
            since(before.history(), after.history()),
        ),
{
    let n = before.history().len() as int;
    if 0 <= i < n {
        assert(after.history().take(n)[i] == after.history()[i]);
    }
}

/// A sequence of calls is allowed, and leads to a state, one call after the other.
pub proof fn law_calls_follow_one_another<R: RuntimeModel>(
    model: R::Model,
    events: History<R::FrameFn, R::DiscoveryFn>,
    event: PortEvent<R::FrameFn, R::DiscoveryFn>,
)
    ensures
        model_after::<R>(model, Seq::empty()) == model,
        model_after::<R>(model, events.push(event)) == R::next(
            model_after::<R>(model, events),
            event,
        ),
        all_allowed::<R>(model, Seq::empty()),
        all_allowed::<R>(model, events.push(event)) <==> all_allowed::<R>(model, events)
            && R::allows(model_after::<R>(model, events), event),
{
    assert(events.push(event).drop_last() =~= events);
}

/// The history holds a list of cameras entry by entry, and an error as it is.
pub proof fn law_history_holds_the_list(r: Result<Vec<CameraInfo>, VmbError>)
    ensures
        r matches Ok(cameras) ==> listed(r) == Ok::<Seq<CameraInfo>, VmbError>(cameras@),
        r matches Err(e) ==> listed(r) == Err::<Seq<CameraInfo>, VmbError>(e),
{
}

/// Ending one registration keeps a callback registered that has another: what was
/// registered for it under another handle still is.
pub proof fn law_ending_one_registration_keeps_the_others<F, D>(
    history: History<F, D>,
    r: DiscoveryRegistrationHandle,
    other: u64,
    cb: DiscoveryCallbackId,
)
    requires
        other != r.0,
    ensures
        ({
            let before = port_state(history).discovery_regs;
            let after = port_state(
                history.push(PortEvent::UnregisterDiscovery(r)),
            ).discovery_regs;
            (after.contains_key(other) && after[other] == cb) <==> (before.contains_key(other)
                && before[other] == cb)
        }),
{
    lemma_port_state_push(history, PortEvent::UnregisterDiscovery(r));
}

} // verus!
