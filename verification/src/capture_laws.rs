//! What starting and stopping a capture does to the resources of a runtime.
//!
//! The laws speak of any runtime: they are read off the history that
//! [`crate::camera::Camera`] leaves behind.

use vstd::prelude::*;

use crate::camera::{
    capture_primed, capture_stopped, capture_unwound, start_outcome, teardown, Priming,
    SessionView, FEATURE_ACQUISITION_STOP,
};
use crate::error::VmbError;
use crate::port::{lemma_port_state_push, port_state, History, PortEvent, PortState};
use crate::types::{CameraHandle, FrameCallbackId, FrameSlotId};

verus! {

/// The slots, each queued for the same callback.
pub open spec fn queue_entries(slots: Seq<FrameSlotId>, cb: FrameCallbackId) -> Seq<
    (FrameSlotId, FrameCallbackId),
> {
    Seq::new(slots.len(), |i: int| (slots[i], cb))
}

/// The announced slots once `slots` belong to the camera too.
pub open spec fn with_slots(
    announced: Map<u64, u64>,
    h: CameraHandle,
    slots: Seq<FrameSlotId>,
) -> Map<u64, u64> {
    Map::new(
        |s: u64| announced.contains_key(s) || slots.contains(FrameSlotId(s)),
        |s: u64|
            if slots.contains(FrameSlotId(s)) {
                h@
            } else {
                announced[s]
            },
    )
}

/// The camera holds nothing: no live capture, no announced slot.
pub open spec fn holds_nothing<F, D>(state: PortState<F, D>, h: CameraHandle) -> bool {
    !state.capturing(h) && state.owns_no_slot(h)
}

/// The identifiers a priming was given were not in use before.
pub open spec fn identifiers_fresh<F, D>(state: PortState<F, D>, run: Priming<F>) -> bool {
    &&& !state.frame_callbacks.contains_key(run.callback_id.0)
    &&& forall|i: int|
        0 <= i < run.slots.len() ==> !state.announced.contains_key(#[trigger] run.slots[i].0)
}

/// What is left once a camera's capture and slots, and one callback, are given up.
pub open spec fn released<F, D>(
    state: PortState<F, D>,
    h: CameraHandle,
    cb: FrameCallbackId,
) -> PortState<F, D> {
    PortState {
        active: state.active.remove(h@),
        announced: state.announced_elsewhere(h),
        frame_callbacks: state.frame_callbacks.remove(cb.0),
        ..state
    }
}

/// The call does not end or flush the capture of the camera, and does not touch the
/// callback.
pub open spec fn spares_capture<F, D>(
    event: PortEvent<F, D>,
    h: CameraHandle,
    cb: FrameCallbackId,
) -> bool {
    match event {
        PortEvent::CaptureEnd(other) => other@ != h@,
        PortEvent::CaptureQueueFlush(other) => other@ != h@,
        PortEvent::CloseCamera(other) => other@ != h@,
        PortEvent::InstallFrameCallback(_, id) => id.0 != cb.0,
        PortEvent::UninstallFrameCallback(id) => id.0 != cb.0,
        _ => true,
    }
}

/// What is claimed after `k` setup calls on top of `base`.
spec fn primed_state<F, D>(
    base: PortState<F, D>,
    h: CameraHandle,
    n: nat,
    run: Priming<F>,
    k: nat,
) -> PortState<F, D> {
    PortState {
        announced: with_slots(
            base.announced,
            h,
            run.slots.take(if k < n { k as int } else { n as int }),
        ),
        active: if k <= n {
            base.active
        } else {
            base.active.insert(
                h@,
                base.queued(h) + queue_entries(
                    run.slots.take(if k < 2 * n + 1 { k - n - 1 } else { n as int }),
                    run.callback_id,
                ),
            )
        },
        frame_callbacks: base.frame_callbacks.insert(run.callback_id.0, run.callback),
        ..base
    }
}

proof fn lemma_priming_state<F, D>(
    before: History<F, D>,
    h: CameraHandle,
    n: nat,
    run: Priming<F>,
    k: nat,
)
    requires
        k <= Priming::<F>::steps(n),
        run.slots.len() >= if k < n { k } else { n },
    ensures
        port_state(before + run.prologue(h) + run.done(h, n, k)) == primed_state(
            port_state(before),
            h,
            n,
            run,
            k,
        ),
    decreases k,
{
    let base = port_state(before);
    let install = PortEvent::InstallFrameCallback(run.callback, run.callback_id);
    let payload = PortEvent::PayloadSize(h, Ok(run.payload));
    if k == 0 {
        assert(before + run.prologue(h) + run.done(h, n, 0) =~= before.push(payload).push(install));
        lemma_port_state_push(before, payload);
        lemma_port_state_push(before.push(payload), install);
        assert(with_slots(base.announced, h, run.slots.take(0)) =~= base.announced);
    } else {
        let j = (k - 1) as nat;
        let prev = before + run.prologue(h) + run.done(h, n, j);
        let event = run.step(h, n, j as int, None);
        lemma_priming_state(before, h, n, run, j);
        assert(before + run.prologue(h) + run.done(h, n, k) =~= prev.push(event));
        lemma_port_state_push(prev, event);
        let prev_state = primed_state(base, h, n, run, j);
        if j < n {
            assert(run.slots.take(k as int) =~= run.slots.take(j as int).push(run.slots[j as int]));
            assert forall|s: u64|
                run.slots.take(k as int).contains(FrameSlotId(s)) == (run.slots.take(
                    j as int,
                ).contains(FrameSlotId(s)) || s == run.slots[j as int].0) by {
                lemma_contains_push(run.slots.take(j as int), run.slots[j as int], FrameSlotId(s));
            }
            assert(primed_state(base, h, n, run, k).announced =~= prev_state.announced.insert(
                run.slots[j as int].0,
                h@,
            ));
        } else if j == n {
            assert(base.queued(h) + queue_entries(run.slots.take(0), run.callback_id)
                =~= base.queued(h));
        } else if j < 2 * n + 1 {
            let q = j - n - 1;
            assert(queue_entries(run.slots.take(q + 1), run.callback_id) =~= queue_entries(
                run.slots.take(q),
                run.callback_id,
            ).push((run.slots[q], run.callback_id)));
            assert(base.queued(h) + queue_entries(run.slots.take(q + 1), run.callback_id) =~= (
            base.queued(h) + queue_entries(run.slots.take(q), run.callback_id)).push(
                (run.slots[q], run.callback_id),
            ));
            assert(primed_state(base, h, n, run, k).active =~= prev_state.step(event).active);
        }
        assert(primed_state(base, h, n, run, k) =~= prev_state.step(event));
    }
}

/// While slots are being queued, the capture is live.
pub proof fn lemma_live_while_queueing<F, D>(
    before: History<F, D>,
    h: CameraHandle,
    n: nat,
    run: Priming<F>,
    k: nat,
)
    requires
        n < k <= Priming::<F>::steps(n),
        run.slots.len() >= n,
    ensures
        port_state(before + run.prologue(h) + run.done(h, n, k)).capturing(h),
{
    lemma_priming_state(before, h, n, run, k);
}

proof fn lemma_contains_push(s: Seq<FrameSlotId>, x: FrameSlotId, y: FrameSlotId)
    ensures
        s.push(x).contains(y) == (s.contains(y) || y == x),
{
    if s.contains(y) {
        let i = choose|i: int| 0 <= i < s.len() && s[i] == y;
        assert(s.push(x)[i] == y);
    }
    assert(s.push(x)[s.len() as int] == x);
}

/// The effect of the teardown.
proof fn lemma_teardown<F, D>(
    history: History<F, D>,
    h: CameraHandle,
    cb: FrameCallbackId,
)
    ensures
        port_state(history + teardown(h, cb)) == released(port_state(history), h, cb),
{
    let e1 = PortEvent::CaptureEnd(h);
    let e2 = PortEvent::CaptureQueueFlush(h);
    let e3 = PortEvent::FrameRevokeAll(h);
    let e4 = PortEvent::UninstallFrameCallback(cb);
    lemma_port_state_push(history, e1);
    lemma_port_state_push(history.push(e1), e2);
    lemma_port_state_push(history.push(e1).push(e2), e3);
    lemma_port_state_push(history.push(e1).push(e2).push(e3), e4);
    assert(history + teardown(h, cb) =~= history.push(e1).push(e2).push(e3).push(e4));
}

/// A started capture is fully primed: its slots are announced for the camera
/// and queued, in order and behind what was queued before, for the callback
/// that was installed. Nothing else changes.
pub proof fn law_started_capture_is_primed<F, D>(
    before: History<F, D>,
    after: History<F, D>,
    h: CameraHandle,
    n: nat,
    run: Priming<F>,
)
    requires
        capture_primed(before, after, h, n, run),
    ensures
        ({
            let base = port_state(before);
            port_state(after) == (PortState {
                announced: with_slots(base.announced, h, run.slots),
                active: base.active.insert(
                    h@,
                    base.queued(h) + queue_entries(run.slots, run.callback_id),
                ),
                frame_callbacks: base.frame_callbacks.insert(run.callback_id.0, run.callback),
                ..base
            })
        }),
{
    lemma_priming_state(before, h, n, run, Priming::<F>::steps(n));
    assert(run.slots.take(n as int) =~= run.slots);
}

/// A failed start leaves nothing claimed: the camera has no live capture and no
/// announced slot, and the callback is no longer installed.
pub proof fn law_failed_start_claims_nothing<F, D>(
    before: History<F, D>,
    after: History<F, D>,
    h: CameraHandle,
    n: nat,
    run: Priming<F>,
    k: nat,
    e: VmbError,
)
    requires
        capture_unwound(before, after, h, n, run, k, e),
    ensures
        holds_nothing(port_state(after), h),
        !port_state(after).frame_callbacks.contains_key(run.callback_id.0),
{
    let failed = before + run.prologue(h) + run.done(h, n, k) + seq![
        run.step(h, n, k as int, Some(e)),
    ];
    lemma_teardown(failed, h, run.callback_id);
}

/// However a start fails, a camera that held nothing holds nothing afterwards, and
/// has no session.
pub proof fn law_failed_start_leaves_the_camera_idle<F, D>(
    before: History<F, D>,
    after: History<F, D>,
    h: CameraHandle,
    n: nat,
    callback: F,
    session: Option<SessionView>,
    e: VmbError,
)
    requires
        start_outcome(before, after, h, n, callback, session, Err(e)),
        holds_nothing(port_state(before), h),
    ensures
        session is None,
        holds_nothing(port_state(after), h),
{
    let refused = PortEvent::PayloadSize(h, Err(e));
    if after == before.push(refused) {
        lemma_port_state_push(before, refused);
    } else {
        let (run, k) = choose|run: Priming<F>, k: nat|
            {
                &&& #[trigger] capture_unwound(before, after, h, n, run, k, e)
                &&& run.callback.closure() == callback
            };
        law_failed_start_claims_nothing(before, after, h, n, run, k, e);
    }
}

/// A stopped capture leaves nothing claimed, whatever the camera answered.
pub proof fn law_stopped_capture_claims_nothing<F, D>(
    before: History<F, D>,
    after: History<F, D>,
    h: CameraHandle,
    cb: FrameCallbackId,
    stopped: Result<(), VmbError>,
)
    requires
        capture_stopped(before, after, h, cb, stopped),
    ensures
        holds_nothing(port_state(after), h),
        !port_state(after).frame_callbacks.contains_key(cb.0),
{
    let told = before + seq![
        PortEvent::RunFeatureCommand(h, FEATURE_ACQUISITION_STOP@, stopped),
    ];
    lemma_teardown(told, h, cb);
}

/// A camera that is closed while it captures leaves nothing claimed.
pub proof fn law_closed_capture_claims_nothing<F, D>(
    before: History<F, D>,
    after: History<F, D>,
    h: CameraHandle,
    cb: FrameCallbackId,
    stopped: Result<(), VmbError>,
)
    requires
        after.len() > 0,
        after.last() == PortEvent::<F, D>::CloseCamera(h),
        capture_stopped(before, after.drop_last(), h, cb, stopped),
    ensures
        holds_nothing(port_state(after), h),
        !port_state(after).frame_callbacks.contains_key(cb.0),
{
    law_stopped_capture_claims_nothing(before, after.drop_last(), h, cb, stopped);
}

/// Flushing empties the frame queue of a camera and does nothing else: a live capture
/// stays live, and the queues of other cameras stay as they were.
pub proof fn law_flush_empties_the_queue<F, D>(
    history: History<F, D>,
    h: CameraHandle,
    other: CameraHandle,
)
    requires
        other@ != h@,
    ensures
        ({
            let before = port_state(history);
            let after = port_state(history.push(PortEvent::CaptureQueueFlush(h)));
            &&& after.queued(h).len() == 0
            &&& after.capturing(h) == before.capturing(h)
            &&& after.queued(other) == before.queued(other)
            &&& after.capturing(other) == before.capturing(other)
            &&& after == (PortState { active: after.active, ..before })
        }),
{
    lemma_port_state_push(history, PortEvent::CaptureQueueFlush(h));
}

/// A failed start undoes itself: on a camera that held nothing, and with fresh
/// identifiers, it leaves exactly what was claimed before.
pub proof fn law_failed_start_undoes_itself<F, D>(
    before: History<F, D>,
    after: History<F, D>,
    h: CameraHandle,
    n: nat,
    run: Priming<F>,
    k: nat,
    e: VmbError,
)
    requires
        capture_unwound(before, after, h, n, run, k, e),
        holds_nothing(port_state(before), h),
        identifiers_fresh(port_state(before), run),
    ensures
        port_state(after) == port_state(before),
{
    let primed = before + run.prologue(h) + run.done(h, n, k);
    let event = run.step(h, n, k as int, Some(e));
    let failed = primed + seq![event];
    lemma_priming_state(before, h, n, run, k);
    assert(failed =~= primed.push(event));
    lemma_port_state_push(primed, event);
    lemma_teardown(failed, h, run.callback_id);
    lemma_unwinding_restores(
        port_state(before),
        h,
        run,
        run.slots.take(if k < n { k as int } else { n as int }),
        primed_state(port_state(before), h, n, run, k).active,
    );
}

/// What a call leaves, apart from what a camera and a callback hold, does not depend
/// on what they held before.
proof fn lemma_released_step<F, D>(
    a: PortState<F, D>,
    b: PortState<F, D>,
    event: PortEvent<F, D>,
    h: CameraHandle,
    cb: FrameCallbackId,
)
    requires
        released(a, h, cb) == released(b, h, cb),
    ensures
        released(a.step(event), h, cb) == released(b.step(event), h, cb),
{
    let ra = released(a, h, cb);
    let rb = released(b, h, cb);
    assert forall|s: u64|
        #![trigger a.announced.contains_key(s)]
        #![trigger b.announced.contains_key(s)]
        (a.announced.contains_key(s) && a.announced[s] != h@) == (b.announced.contains_key(s)
            && b.announced[s] != h@) && (a.announced.contains_key(s) && a.announced[s] != h@
            ==> a.announced[s] == b.announced[s]) by {
        assert(ra.announced.contains_key(s) == rb.announced.contains_key(s));
        assert(ra.announced.contains_key(s) ==> ra.announced[s] == rb.announced[s]);
    }
    assert forall|g: u64|
        #![trigger a.active.contains_key(g)]
        #![trigger b.active.contains_key(g)]
        g != h@ implies a.active.contains_key(g) == b.active.contains_key(g) && (
    a.active.contains_key(g) ==> a.active[g] == b.active[g]) by {
        assert(ra.active.contains_key(g) == rb.active.contains_key(g));
        assert(ra.active.contains_key(g) ==> ra.active[g] == rb.active[g]);
    }
    assert forall|id: u64|
        #![trigger a.frame_callbacks.contains_key(id)]
        #![trigger b.frame_callbacks.contains_key(id)]
        id != cb.0 implies a.frame_callbacks.contains_key(id) == b.frame_callbacks.contains_key(id)
        && (a.frame_callbacks.contains_key(id) ==> a.frame_callbacks[id]
        == b.frame_callbacks[id]) by {
        assert(ra.frame_callbacks.contains_key(id) == rb.frame_callbacks.contains_key(id));
        assert(ra.frame_callbacks.contains_key(id) ==> ra.frame_callbacks[id]
            == rb.frame_callbacks[id]);
    }
    assert(ra.started == rb.started);
    assert(ra.discovery_callbacks == rb.discovery_callbacks);
    assert(ra.discovery_regs == rb.discovery_regs);
    let na = released(a.step(event), h, cb);
    let nb = released(b.step(event), h, cb);
    assert(na.active =~= nb.active);
    assert(na.announced =~= nb.announced);
    assert(na.frame_callbacks =~= nb.frame_callbacks);
}

/// The same of any number of calls.
proof fn lemma_released_after<F, D>(
    a: History<F, D>,
    b: History<F, D>,
    events: History<F, D>,
    h: CameraHandle,
    cb: FrameCallbackId,
)
    requires
        released(port_state(a), h, cb) == released(port_state(b), h, cb),
    ensures
        released(port_state(a + events), h, cb) == released(port_state(b + events), h, cb),
    decreases events.len(),
{
    if events.len() == 0 {
        assert(a + events =~= a);
        assert(b + events =~= b);
    } else {
        let lead = events.drop_last();
        lemma_released_after(a, b, lead, h, cb);
        assert(a + events =~= (a + lead).push(events.last()));
        assert(b + events =~= (b + lead).push(events.last()));
        lemma_port_state_push(a + lead, events.last());
        lemma_port_state_push(b + lead, events.last());
        lemma_released_step(port_state(a + lead), port_state(b + lead), events.last(), h, cb);
    }
}

/// Stopping undoes starting, whatever was called in between: a capture that was
/// started with fresh identifiers and stopped leaves what the calls in between would
/// have left without it, less what they left to the camera itself. If they would have
/// left the camera nothing, that is exactly what they would have left.
pub proof fn law_stop_undoes_start<F, D>(
    before: History<F, D>,
    running: History<F, D>,
    events: History<F, D>,
    after: History<F, D>,
    h: CameraHandle,
    n: nat,
    run: Priming<F>,
    stopped: Result<(), VmbError>,
)
    requires
        capture_primed(before, running, h, n, run),
        capture_stopped(running + events, after, h, run.callback_id, stopped),
        identifiers_fresh(port_state(before), run),
    ensures
        port_state(after) == released(port_state(before + events), h, run.callback_id),
        holds_nothing(port_state(before + events), h) && !port_state(
            before + events,
        ).frame_callbacks.contains_key(run.callback_id.0) ==> port_state(after) == port_state(
            before + events,
        ),
{
    law_started_capture_is_primed(before, running, h, n, run);
    let base = port_state(before);
    let cb = run.callback_id;
    assert forall|s: u64| #[trigger] base.announced.contains_key(s) implies !run.slots.contains(
        FrameSlotId(s),
    ) by {
        if run.slots.contains(FrameSlotId(s)) {
            let i = choose|i: int| 0 <= i < run.slots.len() && run.slots[i] == FrameSlotId(s);
            assert(run.slots[i].0 == s);
        }
    }
    let primed = released(port_state(running), h, cb);
    assert(primed.active =~= released(base, h, cb).active);
    assert(primed.announced =~= released(base, h, cb).announced);
    assert(primed.frame_callbacks =~= released(base, h, cb).frame_callbacks);
    lemma_released_after(running, before, events, h, cb);
    let told = running + events;
    let event = PortEvent::RunFeatureCommand(h, FEATURE_ACQUISITION_STOP@, stopped);
    assert(told + seq![event] =~= told.push(event));
    lemma_port_state_push(told, event);
    lemma_teardown(told + seq![event], h, cb);
    let left = port_state(before + events);
    if holds_nothing(left, h) && !left.frame_callbacks.contains_key(cb.0) {
        assert(left.active.remove(h@) =~= left.active);
        assert(left.announced_elsewhere(h) =~= left.announced);
        assert(left.frame_callbacks.remove(cb.0) =~= left.frame_callbacks);
    }
}

/// A call that spares a capture leaves the capture live, its first slot first in the
/// queue, and its callback installed.
proof fn lemma_capture_goes_on<F, D>(
    from: History<F, D>,
    events: History<F, D>,
    h: CameraHandle,
    cb: FrameCallbackId,
)
    requires
        port_state(from).queued(h).len() > 0,
        port_state(from).frame_callbacks.contains_key(cb.0),
        forall|i: int| 0 <= i < events.len() ==> spares_capture(#[trigger] events[i], h, cb),
    ensures
        ({
            let was = port_state(from);
            let now = port_state(from + events);
            &&& now.capturing(h)
            &&& now.queued(h).len() >= was.queued(h).len()
            &&& now.queued(h)[0] == was.queued(h)[0]
            &&& now.frame_callbacks.contains_key(cb.0)
            &&& now.frame_callbacks[cb.0] == was.frame_callbacks[cb.0]
        }),
    decreases events.len(),
{
    if events.len() == 0 {
        assert(from + events =~= from);
    } else {
        let lead = events.drop_last();
        assert forall|i: int| 0 <= i < lead.len() implies spares_capture(
            #[trigger] lead[i],
            h,
            cb,
        ) by {
            assert(lead[i] == events[i]);
        }
        lemma_capture_goes_on(from, lead, h, cb);
        assert(spares_capture(events[events.len() - 1], h, cb));
        assert(from + events =~= (from + lead).push(events.last()));
        lemma_port_state_push(from + lead, events.last());
    }
}

/// While a capture goes on, frames reach the closure that it was started with: after
/// a start on a camera with nothing queued, and any calls that do not end or flush
/// the capture or touch its callback, the capture is live, the first of its slots is
/// first in the queue, and the closure is installed for it.
pub proof fn law_frames_reach_the_capture_callback<F, D>(
    before: History<F, D>,
    running: History<F, D>,
    events: History<F, D>,
    h: CameraHandle,
    n: nat,
    run: Priming<F>,
)
    requires
        capture_primed(before, running, h, n, run),
        n > 0,
        port_state(before).queued(h).len() == 0,
        forall|i: int|
            0 <= i < events.len() ==> spares_capture(#[trigger] events[i], h, run.callback_id),
    ensures
        ({
            let state = port_state(running + events);
            let first = state.queued(h)[0];
            &&& state.capturing(h)
            &&& state.queued(h).len() >= n
            &&& first == (run.slots[0], run.callback_id)
            &&& state.frame_callbacks.contains_key(first.1.0)
            &&& state.frame_callbacks[first.1.0] == run.callback
        }),
{
    law_started_capture_is_primed(before, running, h, n, run);
    lemma_capture_goes_on(running, events, h, run.callback_id);
}

/// Starting a capture, whether it succeeds or not, and stopping it leave the
/// captures of other cameras alone: whether they are live, what is queued on them, and
/// every callback but the capture's own.
pub proof fn law_other_captures_are_undisturbed<F, D>(
    before: History<F, D>,
    after: History<F, D>,
    h: CameraHandle,
    n: nat,
    run: Priming<F>,
    k: nat,
    e: VmbError,
    stopped: Result<(), VmbError>,
    other: CameraHandle,
)
    requires
        other@ != h@,
        capture_primed(before, after, h, n, run) || capture_unwound(before, after, h, n, run, k, e)
            || capture_stopped(before, after, h, run.callback_id, stopped),
    ensures
        port_state(after).capturing(other) == port_state(before).capturing(other),
        port_state(after).queued(other) == port_state(before).queued(other),
        forall|id: u64|
            id != run.callback_id.0 ==> {
                &&& #[trigger] port_state(after).frame_callbacks.contains_key(id) == port_state(
                    before,
                ).frame_callbacks.contains_key(id)
                &&& port_state(after).frame_callbacks.contains_key(id) ==> port_state(
                    after,
                ).frame_callbacks[id] == port_state(before).frame_callbacks[id]
            },
{
    if capture_primed(before, after, h, n, run) {
        law_started_capture_is_primed(before, after, h, n, run);
    } else if capture_unwound(before, after, h, n, run, k, e) {
        let primed = before + run.prologue(h) + run.done(h, n, k);
        let event = run.step(h, n, k as int, Some(e));
        lemma_priming_state(before, h, n, run, k);
        assert(primed + seq![event] =~= primed.push(event));
        lemma_port_state_push(primed, event);
        lemma_teardown(primed + seq![event], h, run.callback_id);
    } else {
        let event = PortEvent::RunFeatureCommand(h, FEATURE_ACQUISITION_STOP@, stopped);
        assert(before + seq![event] =~= before.push(event));
        lemma_port_state_push(before, event);
        lemma_teardown(before + seq![event], h, run.callback_id);
    }
}

/// Taking away what a priming added gives back what was there.
proof fn lemma_unwinding_restores<F, D>(
    base: PortState<F, D>,
    h: CameraHandle,
    run: Priming<F>,
    slots: Seq<FrameSlotId>,
    active: Map<u64, Seq<(FrameSlotId, FrameCallbackId)>>,
)
    requires
        holds_nothing(base, h),
        identifiers_fresh(base, run),
        forall|s: FrameSlotId| #[trigger] slots.contains(s) ==> run.slots.contains(s),
        active.remove(h@) =~= base.active.remove(h@),
    ensures
        active.remove(h@) == base.active,
        (PortState {
            announced: with_slots(base.announced, h, slots),
            ..base
        }).announced_elsewhere(h) == base.announced,
        base.frame_callbacks.insert(run.callback_id.0, run.callback).remove(run.callback_id.0)
            == base.frame_callbacks,
{
    assert(base.active.remove(h@) =~= base.active);
    assert forall|s: u64| #[trigger] base.announced.contains_key(s) implies !slots.contains(
        FrameSlotId(s),
    ) by {
        if slots.contains(FrameSlotId(s)) {
            let i = choose|i: int| 0 <= i < run.slots.len() && run.slots[i] == FrameSlotId(s);
            assert(run.slots[i].0 == s);
        }
    }
    assert((PortState {
        announced: with_slots(base.announced, h, slots),
        ..base
    }).announced_elsewhere(h) =~= base.announced);
    assert(base.frame_callbacks.insert(run.callback_id.0, run.callback).remove(run.callback_id.0)
        =~= base.frame_callbacks);
}

} // verus!
