//! What holds of a capture that is started on the fake runtime.

use vstd::prelude::*;

use crate::camera::{
    capture_primed, capture_stopped, capture_unwound, start_outcome, teardown, Priming,
    SessionView,
};
use crate::capture_laws::{
    holds_nothing, identifiers_fresh, law_failed_start_undoes_itself,
    law_frames_reach_the_capture_callback, law_stop_undoes_start,
    law_stopped_capture_claims_nothing, lemma_live_while_queueing, released, spares_capture,
};
use crate::error::VmbError;
use crate::failures::Method;
use crate::fake::FakeVmbRuntime;
use crate::fake_model::{calls_of, identifier_of, lemma_calls_of_push, method_of, FakeView};
use crate::frame::Frame;
use crate::port::{
    all_allowed, lemma_port_state_push, model_after, port_state, since, went, History, PortEvent,
    RuntimeModel,
};
use crate::types::{CameraHandle, DiscoveryEvent, FrameCallbackId};

verus! {

/// Of a sequence of calls that are all allowed, each is allowed where it stands.
proof fn lemma_each_allowed<R: RuntimeModel>(
    model: R::Model,
    events: History<R::FrameFn, R::DiscoveryFn>,
    i: int,
)
    requires
        all_allowed::<R>(model, events),
        0 <= i < events.len(),
    ensures
        R::allows(model_after::<R>(model, events.take(i)), events[i]),
    decreases events.len(),
{
    if i == events.len() - 1 {
        assert(events.take(i) =~= events.drop_last());
    } else {
        lemma_each_allowed::<R>(model, events.drop_last(), i);
        assert(events.drop_last().take(i) =~= events.take(i));
    }
}

/// Calls extend the history and use up failures, they arm none.
proof fn lemma_fake_after<F, D>(model: FakeView<F, D>, events: History<F, D>)
    where
        F: for <'a>Fn(&Frame<'a>) + Send + Sync + 'static,
        D: Fn(DiscoveryEvent) + Send + Sync + 'static,
    ensures
        ({
            let after = model_after::<FakeVmbRuntime<F, D>>(model, events);
            &&& after.history == model.history + events
            &&& forall|key: (Method, nat)| #[trigger]
                after.failures.contains_key(key) ==> {
                    &&& model.failures.contains_key(key)
                    &&& model.failures[key] == after.failures[key]
                }
        }),
    decreases events.len(),
{
    if events.len() > 0 {
        lemma_fake_after(model, events.drop_last());
        let after = model_after::<FakeVmbRuntime<F, D>>(model, events);
        assert(after.history =~= model.history + events);
    } else {
        assert(model.history =~= model.history + events);
    }
}

/// On the fake, a capture fails to start only with an error that was armed.
pub proof fn law_start_fails_only_with_an_armed_error<F, D>(
    before: FakeVmbRuntime<F, D>,
    after: FakeVmbRuntime<F, D>,
    h: CameraHandle,
    n: nat,
    callback: F,
    session: Option<SessionView>,
    e: VmbError,
)
    where
        F: for <'a>Fn(&Frame<'a>) + Send + Sync + 'static,
        D: Fn(DiscoveryEvent) + Send + Sync + 'static,
    requires
        went(before, after),
        start_outcome(before@.history, after@.history, h, n, callback, session, Err(e)),
    ensures
        exists|key: (Method, nat)|
            before@.failures.contains_key(key) && #[trigger] before@.failures[key] == e,
{
    let events = since(before@.history, after@.history);
    let refused = PortEvent::PayloadSize(h, Err(e));
    if after@.history == before@.history.push(refused) {
        assert(events =~= seq![refused]);
        lemma_each_allowed::<FakeVmbRuntime<F, D>>(before@, events, 0);
        assert(events.take(0) =~= Seq::empty());
        let key = (Method::PayloadSize, calls_of(before@.history, Method::PayloadSize));
        assert(before@.failures[key] == e);
    } else {
        let (run, k) = choose|run: Priming<F>, k: nat|
            {
                &&& #[trigger] capture_unwound(before@.history, after@.history, h, n, run, k, e)
                &&& run.callback.closure() == callback
            };
        let lead = run.prologue(h) + run.done(h, n, k);
        let failed = run.step(h, n, k as int, Some(e));
        assert(events =~= lead + seq![failed] + teardown(h, run.callback_id));
        lemma_each_allowed::<FakeVmbRuntime<F, D>>(before@, events, (k + 2) as int);
        assert(events.take((k + 2) as int) =~= lead);
        assert(events[(k + 2) as int] == failed);
        let state = model_after::<FakeVmbRuntime<F, D>>(before@, lead);
        lemma_fake_after(before@, lead);
        assert(before@.history + lead =~= before@.history + run.prologue(h) + run.done(h, n, k));
        if n < k < 2 * n + 1 {
            lemma_live_while_queueing(before@.history, h, n, run, k);
        }
        let m = if k < n {
            Method::AnnounceFrame
        } else if k == n {
            Method::CaptureStart
        } else if k < 2 * n + 1 {
            Method::QueueFrame
        } else {
            Method::RunFeatureCommand
        };
        let key = (m, calls_of(state.history, m));
        assert(state.failures.contains_key(key));
        assert(before@.failures[key] == e);
    }
}

/// On a fake with nothing armed, a capture starts.
pub proof fn law_capture_starts_by_default<F, D>(
    before: FakeVmbRuntime<F, D>,
    after: FakeVmbRuntime<F, D>,
    h: CameraHandle,
    n: nat,
    callback: F,
    session: Option<SessionView>,
    r: Result<(), VmbError>,
)
    where
        F: for <'a>Fn(&Frame<'a>) + Send + Sync + 'static,
        D: Fn(DiscoveryEvent) + Send + Sync + 'static,
    requires
        went(before, after),
        start_outcome(before@.history, after@.history, h, n, callback, session, r),
        before@.failures =~= Map::<(Method, nat), VmbError>::empty(),
    ensures
        r is Ok,
{
    if r is Err {
        law_start_fails_only_with_an_armed_error(before, after, h, n, callback, session, r->Err_0);
    }
}

/// A failure stays armed while its method is not called.
proof fn lemma_failure_waits<F, D>(model: FakeView<F, D>, events: History<F, D>, m: Method)
    where
        F: for <'a>Fn(&Frame<'a>) + Send + Sync + 'static,
        D: Fn(DiscoveryEvent) + Send + Sync + 'static,
    requires
        forall|i: int| 0 <= i < events.len() ==> method_of(#[trigger] events[i]) != Some(m),
    ensures
        model_after::<FakeVmbRuntime<F, D>>(model, events).injected(m) == model.injected(m),
        calls_of(model_after::<FakeVmbRuntime<F, D>>(model, events).history, m) == calls_of(
            model.history,
            m,
        ),
    decreases events.len(),
{
    if events.len() > 0 {
        lemma_failure_waits(model, events.drop_last(), m);
        let before = model_after::<FakeVmbRuntime<F, D>>(model, events.drop_last());
        assert(method_of(events[events.len() - 1]) != Some(m));
        lemma_calls_of_push(before.history, events.last());
    }
}

/// The methods that a capture of `n` buffers needs.
pub open spec fn needed_to_start(n: nat, m: Method) -> bool {
    match m {
        Method::PayloadSize | Method::CaptureStart | Method::RunFeatureCommand => true,
        Method::AnnounceFrame | Method::QueueFrame => n > 0,
        _ => false,
    }
}

/// On the fake, a capture does not start if a call that it needs is made to
/// fail.
pub proof fn law_armed_failure_stops_the_start<F, D>(
    before: FakeVmbRuntime<F, D>,
    after: FakeVmbRuntime<F, D>,
    h: CameraHandle,
    n: nat,
    callback: F,
    session: Option<SessionView>,
    r: Result<(), VmbError>,
    m: Method,
)
    where
        F: for <'a>Fn(&Frame<'a>) + Send + Sync + 'static,
        D: Fn(DiscoveryEvent) + Send + Sync + 'static,
    requires
        went(before, after),
        start_outcome(before@.history, after@.history, h, n, callback, session, r),
        needed_to_start(n, m),
        before@.injected(m) is Some,
    ensures
        r is Err,
{
    if r is Ok {
        let run = choose|run: Priming<F>|
            {
                &&& #[trigger] capture_primed(before@.history, after@.history, h, n, run)
                &&& run.callback.closure() == callback
                &&& session == Some(
                    SessionView { callback_id: run.callback_id, slots: run.slots },
                )
            };
        let events = since(before@.history, after@.history);
        assert(events =~= run.prologue(h) + run.done(h, n, Priming::<F>::steps(n)));
        let j = match m {
            Method::PayloadSize => 0,
            Method::AnnounceFrame => 2,
            Method::CaptureStart => n + 2,
            Method::QueueFrame => n + 3,
            _ => 2 * n + 3,
        };
        assert forall|i: int| 0 <= i < j implies method_of(#[trigger] events.take(j as int)[i])
            != Some(m) by {
            if i >= 2 {
                assert(events[i] == run.step::<D>(h, n, i - 2, None));
            }
        }
        lemma_failure_waits(before@, events.take(j as int), m);
        lemma_each_allowed::<FakeVmbRuntime<F, D>>(before@, events, j as int);
        if j >= 2 {
            assert(events[j as int] == run.step::<D>(h, n, j - 2, None));
        }
    }
}

/// Delivered frames reach the closure that the capture was started with, if nothing
/// was queued on the camera before, and for as long as no call ends or flushes the
/// capture or touches its callback.
pub proof fn law_delivered_frames_reach_the_closure<F, D>(
    before: FakeView<F, D>,
    running: FakeView<F, D>,
    events: History<F, D>,
    after: FakeView<F, D>,
    h: CameraHandle,
    n: nat,
    callback: F,
    session: SessionView,
)
    requires
        start_outcome(before.history, running.history, h, n, callback, Some(session), Ok(())),
        n > 0,
        before.port().queued(h).len() == 0,
        after.history == running.history + events,
        forall|i: int|
            0 <= i < events.len() ==> spares_capture(#[trigger] events[i], h, session.callback_id),
    ensures
        after.port().capturing(h),
        after.port().queued(h)[0].1 == session.callback_id,
        after.frame_callback_for(h) is Some,
        after.frame_callback_for(h)->0.closure() == callback,
{
    let run = choose|run: Priming<F>|
        {
            &&& #[trigger] capture_primed(before.history, running.history, h, n, run)
            &&& run.callback.closure() == callback
            &&& Some(session) == Some(
                SessionView { callback_id: run.callback_id, slots: run.slots },
            )
        };
    law_frames_reach_the_capture_callback(before.history, running.history, events, h, n, run);
}

/// The call does not start a capture on the camera, and queues nothing there.
pub open spec fn leaves_idle<F, D>(event: PortEvent<F, D>, h: CameraHandle) -> bool {
    match event {
        PortEvent::CaptureStart(other, _) => other@ != h@,
        PortEvent::QueueFrame(other, _, _, _) => other@ != h@,
        _ => true,
    }
}

/// Without such a call, a camera that does not capture goes on not to.
proof fn lemma_stays_idle<F, D>(from: History<F, D>, events: History<F, D>, h: CameraHandle)
    requires
        !port_state(from).capturing(h),
        forall|i: int| 0 <= i < events.len() ==> leaves_idle(#[trigger] events[i], h),
    ensures
        !port_state(from + events).capturing(h),
    decreases events.len(),
{
    if events.len() == 0 {
        assert(from + events =~= from);
    } else {
        let lead = events.drop_last();
        assert forall|i: int| 0 <= i < lead.len() implies leaves_idle(#[trigger] lead[i], h) by {
            assert(lead[i] == events[i]);
        }
        lemma_stays_idle(from, lead, h);
        assert(leaves_idle(events[events.len() - 1], h));
        assert(from + events =~= (from + lead).push(events.last()));
        lemma_port_state_push(from + lead, events.last());
    }
}

/// Once a capture is stopped, no frame is delivered for the camera until a capture is
/// started on it again.
pub proof fn law_no_frame_after_the_stop<F, D>(
    running: FakeView<F, D>,
    stopped: FakeView<F, D>,
    events: History<F, D>,
    after: FakeView<F, D>,
    h: CameraHandle,
    cb: FrameCallbackId,
    answer: Result<(), VmbError>,
)
    requires
        capture_stopped(running.history, stopped.history, h, cb, answer),
        after.history == stopped.history + events,
        forall|i: int| 0 <= i < events.len() ==> leaves_idle(#[trigger] events[i], h),
    ensures
        after.frame_callback_for(h) is None,
{
    law_stopped_capture_claims_nothing(running.history, stopped.history, h, cb, answer);
    lemma_stays_idle(stopped.history, events, h);
}

/// The identifiers that the fake gives to a capture, started or not, are fresh,
/// unless they wrap around on the way.
pub proof fn law_capture_identifiers_are_fresh<F, D>(
    before: FakeVmbRuntime<F, D>,
    after: FakeVmbRuntime<F, D>,
    h: CameraHandle,
    n: nat,
    run: Priming<F>,
    k: nat,
    e: VmbError,
)
    where
        F: for <'a>Fn(&Frame<'a>) + Send + Sync + 'static,
        D: Fn(DiscoveryEvent) + Send + Sync + 'static,
    requires
        before.wf(),
        went(before, after),
        capture_primed(before@.history, after@.history, h, n, run) || capture_unwound(
            before@.history,
            after@.history,
            h,
            n,
            run,
            k,
            e,
        ),
        before@.issued + n < u64::MAX,
    ensures
        identifiers_fresh(before@.port(), run),
{
    let events = since(before@.history, after@.history);
    let made = if capture_primed(before@.history, after@.history, h, n, run) {
        Priming::<F>::steps(n)
    } else {
        k
    };
    let lead = run.prologue::<D>(h) + run.done::<D>(h, n, made);
    assert(events.take(lead.len() as int) =~= lead);
    before.lemma_identifiers_in_use();
    lemma_identifier_number(before@, events, h, n, run, made, 1);
    assert(lead[1] == PortEvent::<F, D>::InstallFrameCallback(run.callback, run.callback_id));
    assert forall|i: int| 0 <= i < run.slots.len() implies !before@.port().announced.contains_key(
        #[trigger] run.slots[i].0,
    ) by {
        lemma_identifier_number(before@, events, h, n, run, made, i + 2);
        assert(lead[i + 2] == run.step::<D>(h, n, i, None));
    }
}

/// The identifiers that a priming is given go on from those given out before: first
/// that of the callback, then those of the slots.
proof fn lemma_identifier_number<F, D>(
    model: FakeView<F, D>,
    events: History<F, D>,
    h: CameraHandle,
    n: nat,
    run: Priming<F>,
    made: nat,
    i: int,
)
    where
        F: for <'a>Fn(&Frame<'a>) + Send + Sync + 'static,
        D: Fn(DiscoveryEvent) + Send + Sync + 'static,
    requires
        all_allowed::<FakeVmbRuntime<F, D>>(model, events),
        made + 2 <= events.len(),
        events.take((made + 2) as int) == run.prologue::<D>(h) + run.done::<D>(h, n, made),
        1 <= i < made + 2,
        i < n + 2,
        model.issued + n < u64::MAX,
    ensures
        identifier_of((run.prologue::<D>(h) + run.done::<D>(h, n, made))[i]) is Some,
        identifier_of((run.prologue::<D>(h) + run.done::<D>(h, n, made))[i])->0 == model.issued + i,
{
    let lead = run.prologue::<D>(h) + run.done::<D>(h, n, made);
    assert(events.take(i) =~= events.take((made + 2) as int).take(i));
    assert(events[i] == events.take((made + 2) as int)[i]);
    lemma_identifier_count(model, h, n, run, made, i);
    lemma_each_allowed::<FakeVmbRuntime<F, D>>(model, events, i);
    if i == 1 {
        assert(lead[i] == PortEvent::<F, D>::InstallFrameCallback(run.callback, run.callback_id));
    } else {
        assert(lead[i] == run.step::<D>(h, n, i - 2, None));
    }
}

/// The callback takes one identifier, and so does each announced slot.
proof fn lemma_identifier_count<F, D>(
    model: FakeView<F, D>,
    h: CameraHandle,
    n: nat,
    run: Priming<F>,
    made: nat,
    i: int,
)
    where
        F: for <'a>Fn(&Frame<'a>) + Send + Sync + 'static,
        D: Fn(DiscoveryEvent) + Send + Sync + 'static,
    requires
        1 <= i <= made + 2,
        i <= n + 2,
    ensures
        model_after::<FakeVmbRuntime<F, D>>(
            model,
            (run.prologue::<D>(h) + run.done::<D>(h, n, made)).take(i),
        ).issued == model.issued + (i - 1),
    decreases i,
{
    let events = run.prologue::<D>(h) + run.done::<D>(h, n, made);
    let lead = events.take(i);
    assert(lead.drop_last() =~= events.take(i - 1));
    if i == 1 {
        assert(model_after::<FakeVmbRuntime<F, D>>(model, lead.drop_last()) == model);
        assert(lead.last() == PortEvent::<F, D>::PayloadSize(h, Ok(run.payload)));
    } else {
        lemma_identifier_count(model, h, n, run, made, i - 1);
        if i == 2 {
            assert(lead.last() == PortEvent::<F, D>::InstallFrameCallback(
                run.callback,
                run.callback_id,
            ));
        } else {
            assert(lead.last() == run.step::<D>(h, n, i - 3, None));
        }
    }
}

/// On the fake, a start that fails on a camera that held nothing leaves exactly
/// what was claimed before, unless the identifiers wrap around on the way.
pub proof fn law_failed_start_restores_the_fake<F, D>(
    before: FakeVmbRuntime<F, D>,
    after: FakeVmbRuntime<F, D>,
    h: CameraHandle,
    n: nat,
    callback: F,
    session: Option<SessionView>,
    e: VmbError,
)
    where
        F: for <'a>Fn(&Frame<'a>) + Send + Sync + 'static,
        D: Fn(DiscoveryEvent) + Send + Sync + 'static,
    requires
        before.wf(),
        went(before, after),
        start_outcome(before@.history, after@.history, h, n, callback, session, Err(e)),
        holds_nothing(before@.port(), h),
        before@.issued + n < u64::MAX,
    ensures
        session is None,
        after@.port() == before@.port(),
{
    let refused = PortEvent::PayloadSize(h, Err(e));
    if after@.history == before@.history.push(refused) {
        lemma_port_state_push(before@.history, refused);
    } else {
        let (run, k) = choose|run: Priming<F>, k: nat|
            {
                &&& #[trigger] capture_unwound(before@.history, after@.history, h, n, run, k, e)
                &&& run.callback.closure() == callback
            };
        law_capture_identifiers_are_fresh(before, after, h, n, run, k, e);
        law_failed_start_undoes_itself(before@.history, after@.history, h, n, run, k, e);
    }
}

/// On the fake, stopping undoes starting, whatever was called in between: what is
/// left is what the calls in between would have left without the capture, less what
/// they left to the camera itself, unless the identifiers wrap around on the way.
pub proof fn law_stop_restores_the_fake<F, D>(
    before: FakeVmbRuntime<F, D>,
    running: FakeVmbRuntime<F, D>,
    events: History<F, D>,
    after: FakeVmbRuntime<F, D>,
    h: CameraHandle,
    n: nat,
    callback: F,
    session: SessionView,
    stopped: Result<(), VmbError>,
)
    where
        F: for <'a>Fn(&Frame<'a>) + Send + Sync + 'static,
        D: Fn(DiscoveryEvent) + Send + Sync + 'static,
    requires
        before.wf(),
        went(before, running),
        start_outcome(before@.history, running@.history, h, n, callback, Some(session), Ok(())),
        capture_stopped(
            running@.history + events,
            after@.history,
            h,
            session.callback_id,
            stopped,
        ),
        before@.issued + n < u64::MAX,
    ensures
        ({
            let without = port_state(before@.history + events);
            let cb = session.callback_id;
            &&& after@.port() == released(without, h, cb)
            &&& holds_nothing(without, h) && !without.frame_callbacks.contains_key(cb.0)
                ==> after@.port() == without
        }),
{
    let run = choose|run: Priming<F>|
        {
            &&& #[trigger] capture_primed(before@.history, running@.history, h, n, run)
            &&& run.callback.closure() == callback
            &&& Some(session) == Some(
                SessionView { callback_id: run.callback_id, slots: run.slots },
            )
        };
    law_capture_identifiers_are_fresh(before, running, h, n, run, 0, VmbError::AlreadyStarted);
    law_stop_undoes_start(
        before@.history,
        running@.history,
        events,
        after@.history,
        h,
        n,
        run,
        stopped,
    );
}

} // verus!
