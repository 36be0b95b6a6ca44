//! The calls that a camera makes through the port, written out one by one.

use vstd::prelude::*;

use crate::camera::{
    capture_primed, capture_stopped, capture_unwound, start_outcome, Priming, SessionView,
};
use crate::error::VmbError;
use crate::port::{History, PortEvent};
use crate::types::{CameraHandle, FrameCallbackId};

verus! {

/// A start that succeeds asks for the payload size, installs the closure, announces as
/// many slots of that size as there are buffers, starts the capture, queues the slots
/// in the order in which they were announced, and tells the camera to start acquiring,
/// in this order and with nothing else in between, before or after.
pub proof fn law_started_capture_made_these_calls<F, D>(
    before: History<F, D>,
    after: History<F, D>,
    h: CameraHandle,
    n: nat,
    callback: F,
    session: Option<SessionView>,
    i: int,
)
    requires
        start_outcome(before, after, h, n, callback, session, Ok(())),
        0 <= i < n,
    ensures
        ({
            let b = before.len() as int;
            let s = session->0;
            &&& session is Some
            &&& s.slots.len() == n
            &&& after[b + 2 + i] == PortEvent::<F, D>::AnnounceFrame(
                h,
                after[b]->PayloadSize_1->Ok_0,
                Ok(s.slots[i]),
            )
            &&& after[b + 3 + n + i] == PortEvent::<F, D>::QueueFrame(
                h,
                s.slots[i],
                s.callback_id,
                Ok(()),
            )
        }),
{
    let run = choose|run: Priming<F>|
        {
            &&& #[trigger] capture_primed(before, after, h, n, run)
            &&& run.callback.closure() == callback
            &&& session == Some(SessionView { callback_id: run.callback_id, slots: run.slots })
        };
    let b = before.len() as int;
    let made = run.done::<D>(h, n, Priming::<F>::steps(n));
    assert(after[b] == run.prologue::<D>(h)[0]);
    assert(after[b + 2 + i] == made[i]);
    assert(after[b + 3 + n + i] == made[n + 1 + i]);
}

/// The calls of a start that do not belong to a single buffer: it begins with the
/// payload size and the closure, starts the capture once all slots are announced, and
/// ends by telling the camera to start acquiring. What was called before stays.
pub proof fn law_started_capture_is_framed_by_these_calls<F, D>(
    before: History<F, D>,
    after: History<F, D>,
    h: CameraHandle,
    n: nat,
    callback: F,
    session: Option<SessionView>,
)
    requires
        start_outcome(before, after, h, n, callback, session, Ok(())),
    ensures
        ({
            let b = before.len() as int;
            &&& session is Some
            &&& session->0.slots.len() == n
            &&& after.len() == before.len() + 2 * n + 4
            &&& forall|j: int| 0 <= j < b ==> #[trigger] after[j] == before[j]
            &&& after[b] is PayloadSize
            &&& after[b]->PayloadSize_0 == h
            &&& after[b]->PayloadSize_1 is Ok
            &&& after[b + 1] is InstallFrameCallback
            &&& after[b + 1]->InstallFrameCallback_0.closure() == callback
            &&& after[b + 1]->InstallFrameCallback_1 == session->0.callback_id
            &&& after[b + 2 + n] == PortEvent::<F, D>::CaptureStart(h, Ok(()))
            &&& after.last() == PortEvent::<F, D>::RunFeatureCommand(
                h,
                "AcquisitionStart"@,
                Ok(()),
            )
        }),
{
    let run = choose|run: Priming<F>|
        {
            &&& #[trigger] capture_primed(before, after, h, n, run)
            &&& run.callback.closure() == callback
            &&& session == Some(SessionView { callback_id: run.callback_id, slots: run.slots })
        };
    let b = before.len() as int;
    let made = run.done::<D>(h, n, Priming::<F>::steps(n));
    assert(after[b] == run.prologue::<D>(h)[0]);
    assert(after[b + 1] == run.prologue::<D>(h)[1]);
    assert(after[b + 2 + n] == made[n as int]);
    assert(after[b + 2 * n + 3] == made[(2 * n + 1) as int]);
}

/// A start that succeeds runs one command on the camera, as the last of its calls, and
/// that is the one that starts the acquisition: no other call it makes is a command.
pub proof fn law_start_runs_no_other_command<F, D>(
    before: History<F, D>,
    after: History<F, D>,
    h: CameraHandle,
    n: nat,
    callback: F,
    session: Option<SessionView>,
    j: int,
)
    requires
        start_outcome(before, after, h, n, callback, session, Ok(())),
        before.len() <= j < after.len(),
    ensures
        after[j] is RunFeatureCommand <==> j == after.len() - 1,
        after[j] is RunFeatureCommand ==> after[j]->RunFeatureCommand_1 == "AcquisitionStart"@,
{
    law_started_capture_is_framed_by_these_calls(before, after, h, n, callback, session);
    let k = j - before.len();
    if 2 <= k < n + 2 {
        law_started_capture_made_these_calls(before, after, h, n, callback, session, k - 2);
    } else if n + 3 <= k < 2 * n + 3 {
        law_started_capture_made_these_calls(before, after, h, n, callback, session, k - n - 3);
    }
}

/// A start that fails for want of the payload size made no other call. One that fails
/// later made the calls of a start up to the one that failed, and then ended the
/// capture, flushed the queue, revoked the slots and uninstalled the closure, with
/// nothing else in between, before or after. Either way the error is that of the call
/// that failed, and there is no session.
pub proof fn law_failed_start_made_these_calls<F, D>(
    before: History<F, D>,
    after: History<F, D>,
    h: CameraHandle,
    n: nat,
    callback: F,
    session: Option<SessionView>,
    e: VmbError,
)
    requires
        start_outcome(before, after, h, n, callback, session, Err(e)),
    ensures
        session is None,
        after.len() > before.len(),
        forall|j: int| 0 <= j < before.len() ==> #[trigger] after[j] == before[j],
        after.len() == before.len() + 1 ==> after.last() == PortEvent::<F, D>::PayloadSize(
            h,
            Err(e),
        ),
        after.len() != before.len() + 1 ==> {
            let b = before.len() as int;
            let k = after.len() - before.len() - 7;
            let id = after[b + 1]->InstallFrameCallback_1;
            &&& 0 <= k < 2 * n + 2
            &&& after[b] is PayloadSize
            &&& after[b]->PayloadSize_0 == h
            &&& after[b]->PayloadSize_1 is Ok
            &&& after[b + 1] is InstallFrameCallback
            &&& after[b + 1]->InstallFrameCallback_0.closure() == callback
            &&& k < n ==> after[b + 2 + k] == PortEvent::<F, D>::AnnounceFrame(
                h,
                after[b]->PayloadSize_1->Ok_0,
                Err(e),
            )
            &&& k == n ==> after[b + 2 + k] == PortEvent::<F, D>::CaptureStart(h, Err(e))
            &&& k > n ==> after[b + 2 + n] == PortEvent::<F, D>::CaptureStart(h, Ok(()))
            &&& n < k < 2 * n + 1 ==> after[b + 2 + k] == PortEvent::<F, D>::QueueFrame(
                h,
                after[b + 1 + k - n]->AnnounceFrame_2->Ok_0,
                id,
                Err(e),
            )
            &&& k == 2 * n + 1 ==> after[b + 2 + k] == PortEvent::<F, D>::RunFeatureCommand(
                h,
                "AcquisitionStart"@,
                Err(e),
            )
            &&& after[b + 3 + k] == PortEvent::<F, D>::CaptureEnd(h)
            &&& after[b + 4 + k] == PortEvent::<F, D>::CaptureQueueFlush(h)
            &&& after[b + 5 + k] == PortEvent::<F, D>::FrameRevokeAll(h)
            &&& after[b + 6 + k] == PortEvent::<F, D>::UninstallFrameCallback(id)
        },
{
    let refused = PortEvent::PayloadSize(h, Err(e));
    if after != before.push(refused) {
        let (run, k) = choose|run: Priming<F>, k: nat|
            {
                &&& #[trigger] capture_unwound(before, after, h, n, run, k, e)
                &&& run.callback.closure() == callback
            };
        let b = before.len() as int;
        let made = run.done::<D>(h, n, k);
        assert(after[b] == run.prologue::<D>(h)[0]);
        assert(after[b + 1] == run.prologue::<D>(h)[1]);
        assert(after[b + 2 + k] == run.step::<D>(h, n, k as int, Some(e)));
        if k > n {
            assert(after[b + 2 + n] == made[n as int]);
        }
        if n < k < 2 * n + 1 {
            assert(after[b + 1 + k - n] == made[k - n - 1]);
        }
    }
}

/// Until the call that failed, a failed start made the calls that a start makes: each
/// slot is announced with the payload size, and each is queued with the closure, in the
/// order in which they were announced.
pub proof fn law_failed_start_went_like_a_start<F, D>(
    before: History<F, D>,
    after: History<F, D>,
    h: CameraHandle,
    n: nat,
    callback: F,
    session: Option<SessionView>,
    e: VmbError,
    i: int,
)
    requires
        start_outcome(before, after, h, n, callback, session, Err(e)),
        0 <= i < n,
    ensures
        ({
            let b = before.len() as int;
            let k = after.len() - before.len() - 7;
            &&& i < k ==> {
                &&& after[b + 2 + i] is AnnounceFrame
                &&& after[b + 2 + i]->AnnounceFrame_0 == h
                &&& after[b + 2 + i]->AnnounceFrame_1 == after[b]->PayloadSize_1->Ok_0
                &&& after[b + 2 + i]->AnnounceFrame_2 is Ok
            }
            &&& n + 1 + i < k ==> after[b + 3 + n + i] == PortEvent::<F, D>::QueueFrame(
                h,
                after[b + 2 + i]->AnnounceFrame_2->Ok_0,
                after[b + 1]->InstallFrameCallback_1,
                Ok(()),
            )
        }),
{
    let refused = PortEvent::PayloadSize(h, Err(e));
    if after != before.push(refused) {
        let (run, k) = choose|run: Priming<F>, k: nat|
            {
                &&& #[trigger] capture_unwound(before, after, h, n, run, k, e)
                &&& run.callback.closure() == callback
            };
        let b = before.len() as int;
        let made = run.done::<D>(h, n, k);
        assert(after[b] == run.prologue::<D>(h)[0]);
        assert(after[b + 1] == run.prologue::<D>(h)[1]);
        if i < k {
            assert(after[b + 2 + i] == made[i]);
        }
        if n + 1 + i < k {
            assert(after[b + 3 + n + i] == made[n + 1 + i]);
        }
    }
}

/// A stop tells the camera to stop acquiring, ends the capture, flushes the queue,
/// revokes the slots and uninstalls the closure, whatever the camera answered, and
/// makes no other call.
pub proof fn law_stop_made_these_calls<F, D>(
    before: History<F, D>,
    after: History<F, D>,
    h: CameraHandle,
    cb: FrameCallbackId,
    stopped: Result<(), VmbError>,
)
    requires
        capture_stopped(before, after, h, cb, stopped),
    ensures
        ({
            let b = before.len() as int;
            &&& after.len() == before.len() + 5
            &&& forall|j: int| 0 <= j < b ==> #[trigger] after[j] == before[j]
            &&& after[b] == PortEvent::<F, D>::RunFeatureCommand(h, "AcquisitionStop"@, stopped)
            &&& after[b + 1] == PortEvent::<F, D>::CaptureEnd(h)
            &&& after[b + 2] == PortEvent::<F, D>::CaptureQueueFlush(h)
            &&& after[b + 3] == PortEvent::<F, D>::FrameRevokeAll(h)
            &&& after[b + 4] == PortEvent::<F, D>::UninstallFrameCallback(cb)
        }),
{
}

} // verus!
