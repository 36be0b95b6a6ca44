//! An opened camera and its capture session.
//!
//! [`Camera`] drives the announce / queue / capture-start dance entirely
//! through the port. It does not own the runtime: every operation that talks to
//! the backend borrows the runtime, so that several cameras, and the code that
//! watches them, can share one.

use std::sync::Arc;

use vstd::prelude::*;

use crate::callback::FrameCallback;
use crate::error::VmbError;
use crate::port::{
    advanced, lemma_went_further, lemma_went_nowhere, went, History, PortEvent, VmbRuntime,
};
use crate::types::{CameraHandle, FrameCallbackId, FrameSlotId};

verus! {

/// The command feature that starts the acquisition.
pub const FEATURE_ACQUISITION_START: &'static str = "AcquisitionStart";

/// The command feature that stops the acquisition.
pub const FEATURE_ACQUISITION_STOP: &'static str = "AcquisitionStop";

/// An in-progress capture session: the announced slots plus the installed
/// callback, both of which are unwound on teardown.
struct CaptureSession {
    callback_id: FrameCallbackId,
    slots: Vec<FrameSlotId>,
}

/// Open handle to a camera. It is to be used with the runtime that it was opened on.
pub struct Camera {
    handle: CameraHandle,
    id: String,
    session: Option<CaptureSession>,
}

/// A capture session as contracts speak of it.
pub struct SessionView {
    pub callback_id: FrameCallbackId,
    pub slots: Seq<FrameSlotId>,
}

/// A camera as contracts speak of it.
pub struct CameraView {
    pub handle: CameraHandle,
    pub id: Seq<char>,
    pub session: Option<SessionView>,
}

impl View for Camera {
    type V = CameraView;

    closed spec fn view(&self) -> CameraView {
        CameraView {
            handle: self.handle,
            id: self.id@,
            session: match self.session {
                Some(s) => Some(SessionView { callback_id: s.callback_id, slots: s.slots@ }),
                None => None,
            },
        }
    }
}

/// What the runtime answered while a capture was being set up.
pub struct Priming<F> {
    pub payload: u32,
    pub callback: Arc<FrameCallback<F>>,
    pub callback_id: FrameCallbackId,
    pub slots: Seq<FrameSlotId>,
}

/// The result of a call that returns nothing but may fail.
pub open spec fn outcome(failure: Option<VmbError>) -> Result<(), VmbError> {
    match failure {
        Some(e) => Err(e),
        None => Ok(()),
    }
}

impl<F> Priming<F> {
    /// The number of fallible calls it takes to prime `n` buffers.
    pub open spec fn steps(n: nat) -> nat {
        2 * n + 2
    }

    /// The `i`-th fallible call: `n` slots are announced, the capture is
    /// started, the slots are queued in the order in which they were announced,
    /// and the acquisition is started.
    pub open spec fn step<D>(
        self,
        h: CameraHandle,
        n: nat,
        i: int,
        failure: Option<VmbError>,
    ) -> PortEvent<F, D> {
        if i < n {
            PortEvent::AnnounceFrame(
                h,
                self.payload,
                match failure {
                    Some(e) => Err(e),
                    None => Ok(self.slots[i]),
                },
            )
        } else if i == n {
            PortEvent::CaptureStart(h, outcome(failure))
        } else if i < 2 * n + 1 {
            PortEvent::QueueFrame(h, self.slots[i - n - 1], self.callback_id, outcome(failure))
        } else {
            PortEvent::RunFeatureCommand(h, FEATURE_ACQUISITION_START@, outcome(failure))
        }
    }

    /// The first `k` fallible calls, all of which succeeded.
    pub open spec fn done<D>(self, h: CameraHandle, n: nat, k: nat) -> History<F, D> {
        Seq::new(k, |i: int| self.step(h, n, i, None))
    }

    /// The calls that precede the fallible ones.
    pub open spec fn prologue<D>(self, h: CameraHandle) -> History<F, D> {
        seq![
            PortEvent::PayloadSize(h, Ok(self.payload)),
            PortEvent::InstallFrameCallback(self.callback, self.callback_id),
        ]
    }
}

/// The calls that unwind a capture, finished or not.
pub open spec fn teardown<F, D>(h: CameraHandle, callback_id: FrameCallbackId) -> History<F, D> {
    seq![
        PortEvent::CaptureEnd(h),
        PortEvent::CaptureQueueFlush(h),
        PortEvent::FrameRevokeAll(h),
        PortEvent::UninstallFrameCallback(callback_id),
    ]
}

/// Every call that sets up a capture of `n` buffers was made, and succeeded.
pub open spec fn capture_primed<F, D>(
    before: History<F, D>,
    after: History<F, D>,
    h: CameraHandle,
    n: nat,
    run: Priming<F>,
) -> bool {
    &&& run.slots.len() == n
    &&& after == before + run.prologue(h) + run.done(h, n, Priming::<F>::steps(n))
}

/// The `k`-th call that sets up a capture of `n` buffers failed with `e`; all
/// calls before it succeeded, and the full teardown followed.
pub open spec fn capture_unwound<F, D>(
    before: History<F, D>,
    after: History<F, D>,
    h: CameraHandle,
    n: nat,
    run: Priming<F>,
    k: nat,
    e: VmbError,
) -> bool {
    &&& k < Priming::<F>::steps(n)
    &&& run.slots.len() == if k < n { k } else { n }
    &&& after == before + run.prologue(h) + run.done(h, n, k) + seq![
        run.step(h, n, k as int, Some(e)),
    ] + teardown(h, run.callback_id)
}

/// The acquisition was told to stop, with the answer `stopped`, and the full
/// teardown followed.
pub open spec fn capture_stopped<F, D>(
    before: History<F, D>,
    after: History<F, D>,
    h: CameraHandle,
    callback_id: FrameCallbackId,
    stopped: Result<(), VmbError>,
) -> bool {
    after == before + seq![
        PortEvent::RunFeatureCommand(h, FEATURE_ACQUISITION_STOP@, stopped),
    ] + teardown(h, callback_id)
}

/// How `start_capture` on an idle camera ends: the payload size cannot be had,
/// or the capture is primed, or it is unwound.
pub open spec fn start_outcome<F, D>(
    before: History<F, D>,
    after: History<F, D>,
    h: CameraHandle,
    n: nat,
    callback: F,
    session: Option<SessionView>,
    r: Result<(), VmbError>,
) -> bool {
    match r {
        Ok(()) => exists|run: Priming<F>|
            {
                &&& #[trigger] capture_primed(before, after, h, n, run)
                &&& run.callback.closure() == callback
                &&& session == Some(
                    SessionView { callback_id: run.callback_id, slots: run.slots },
                )
            },
        Err(e) => {
            &&& session is None
            &&& {
                ||| after == before.push(PortEvent::PayloadSize(h, Err(e)))
                ||| exists|run: Priming<F>, k: nat|
                    {
                        &&& #[trigger] capture_unwound(before, after, h, n, run, k, e)
                        &&& run.callback.closure() == callback
                    }
            }
        },
    }
}

impl Camera {
    /// Open a camera by its transport-layer ID.
    pub fn open<R: VmbRuntime>(runtime: &mut R, id: &str) -> (r: Result<Camera, VmbError>)
        requires
            old(runtime).valid(),
            old(runtime).can_open(),
        ensures
            match r {
                Ok(camera) => {
                    &&& camera@.id == id@
                    &&& camera@.session is None
                    &&& advanced(
                        *old(runtime),
                        *final(runtime),
                        PortEvent::OpenCamera(id@, Ok(camera@.handle)),
                    )
                },
                Err(e) => advanced(
                    *old(runtime),
                    *final(runtime),
                    PortEvent::OpenCamera(id@, Err(e)),
                ),
            },
    {
        let handle = runtime.open_camera(id)?;
        Ok(Camera { handle, id: id.to_owned(), session: None })
    }

    /// Start continuous capture on `num_buffers` pre-announced frame buffers.
    ///
    /// The closure is invoked for every received frame; it must be fast and
    /// copy the frame bytes, because the buffer is re-queued as soon as it
    /// returns.
    ///
    /// Everything claimed on the way is unwound on any error path before
    /// returning, so the camera has a session exactly when the backend is fully
    /// primed.
    pub fn start_capture<R: VmbRuntime>(
        &mut self,
        runtime: &mut R,
        num_buffers: usize,
        callback: R::FrameFn,
    ) -> (r: Result<(), VmbError>)
        requires
            old(runtime).valid(),
            R::takes_any_frame(callback),
        ensures
            went(*old(runtime), *final(runtime)),
            final(self)@.handle == old(self)@.handle,
            final(self)@.id == old(self)@.id,
            old(self)@.session is Some ==> {
                &&& r == Err::<(), VmbError>(VmbError::CaptureAlreadyRunning)
                &&& final(self)@ == old(self)@
                &&& final(runtime).history() == old(runtime).history()
            },
            old(self)@.session is None ==> start_outcome(
                old(runtime).history(),
                final(runtime).history(),
                old(self)@.handle,
                num_buffers as nat,
                callback,
                final(self)@.session,
                r,
            ),
    {
        let ghost start = *runtime;
        proof {
            lemma_went_nowhere(start);
        }
        if self.session.is_some() {
            return Err(VmbError::CaptureAlreadyRunning);
        }
        let ghost before = runtime.history();
        let payload = runtime.payload_size(self.handle);
        let ghost asked = *runtime;
        proof {
            lemma_went_further(start, start, asked, PortEvent::PayloadSize(self.handle, payload));
        }
        let payload = payload?;
        let callback = Arc::new(FrameCallback::new(callback));
        let ghost installed = callback;
        let callback_id = runtime.install_frame_callback(callback);
        proof {
            lemma_went_further(
                start,
                asked,
                *runtime,
                PortEvent::InstallFrameCallback(installed, callback_id),
            );
        }

        let mut slots: Vec<FrameSlotId> = Vec::new();
        let ghost primed_from = runtime.history();
        let result = prime(
            runtime,
            self.handle,
            payload,
            callback_id,
            num_buffers,
            &mut slots,
            Ghost(installed),
            Ghost(start),
        );
        let ghost run = Priming { payload, callback: installed, callback_id, slots: slots@ };
        let ghost n = num_buffers as nat;
        assert(primed_from =~= before + run.prologue(self.handle));
        match result {
            Ok(()) => {
                assert(capture_primed(before, runtime.history(), self.handle, n, run));
                self.session = Some(CaptureSession { callback_id, slots });
                Ok(())
            },
            Err(e) => {
                let ghost k = choose|k: nat|
                    prime_failed(primed_from, runtime.history(), self.handle, n, run, k, e);
                tear_down(runtime, self.handle, callback_id, Ghost(start));
                assert(capture_unwound(before, runtime.history(), self.handle, n, run, k, e));
                Err(e)
            },
        }
    }

    /// Stop an in-progress capture; without one, nothing happens.
    ///
    /// Teardown is best-effort: a failure to stop the acquisition is swallowed,
    /// because there is no recovering from a partial teardown.
    pub fn stop_capture<R: VmbRuntime>(&mut self, runtime: &mut R) -> (r: Result<(), VmbError>)
        requires
            old(runtime).valid(),
        ensures
            went(*old(runtime), *final(runtime)),
            r is Ok,
            final(self)@ == (CameraView { session: None, ..old(self)@ }),
            match old(self)@.session {
                None => final(runtime).history() == old(runtime).history(),
                Some(session) => exists|stopped: Result<(), VmbError>| #[trigger]
                    capture_stopped(
                        old(runtime).history(),
                        final(runtime).history(),
                        old(self)@.handle,
                        session.callback_id,
                        stopped,
                    ),
            },
    {
        let ghost start = *runtime;
        proof {
            lemma_went_nowhere(start);
        }
        let session = match self.session.take() {
            Some(session) => session,
            None => {
                return Ok(());
            },
        };
        let ghost before = runtime.history();
        let stopped = runtime.run_feature_command(self.handle, FEATURE_ACQUISITION_STOP);
        proof {
            lemma_went_further(
                start,
                start,
                *runtime,
                PortEvent::RunFeatureCommand(self.handle, FEATURE_ACQUISITION_STOP@, stopped),
            );
        }
        tear_down(runtime, self.handle, session.callback_id, Ghost(start));
        proof {
            assert(runtime.history() =~= before + seq![
                PortEvent::RunFeatureCommand(self.handle, FEATURE_ACQUISITION_STOP@, stopped),
            ] + teardown(self.handle, session.callback_id));
            assert(capture_stopped(
                old(runtime).history(),
                runtime.history(),
                old(self)@.handle,
                old(self)@.session->0.callback_id,
                stopped,
            ));
        }
        Ok(())
    }

    /// Give the camera up: end a running capture, then close the handle.
    pub fn close<R: VmbRuntime>(self, runtime: &mut R)
        requires
            old(runtime).valid(),
        ensures
            went(*old(runtime), *final(runtime)),
            match self@.session {
                None => final(runtime).history() == old(runtime).history().push(
                    PortEvent::CloseCamera(self@.handle),
                ),
                Some(session) => {
                    &&& final(runtime).history().len() > 0
                    &&& final(runtime).history().last() == PortEvent::<
                        R::FrameFn,
                        R::DiscoveryFn,
                    >::CloseCamera(self@.handle)
                    &&& exists|stopped: Result<(), VmbError>| #[trigger]
                        capture_stopped(
                            old(runtime).history(),
                            final(runtime).history().drop_last(),
                            self@.handle,
                            session.callback_id,
                            stopped,
                        )
                },
            },
    {
        let ghost start = *runtime;
        proof {
            lemma_went_nowhere(start);
        }
        let mut camera = self;
        if camera.session.is_some() {
            let _ = camera.stop_capture(runtime);
        }
        let ghost stopped = *runtime;
        runtime.close_camera(camera.handle);
        proof {
            lemma_went_further(start, stopped, *runtime, PortEvent::CloseCamera(camera.handle));
            assert(runtime.history().drop_last() =~= stopped.history());
        }
    }

    /// The camera ID originally passed to [`Camera::open`].
    pub fn id(&self) -> (id: &str)
        ensures
            id@ == self@.id,
    {
        self.id.as_str()
    }

    /// The handle of the camera.
    pub fn handle(&self) -> (handle: CameraHandle)
        ensures
            handle == self@.handle,
    {
        self.handle
    }

    /// Whether a capture session is in progress.
    pub fn capture_running(&self) -> (running: bool)
        ensures
            running == (self@.session is Some),
    {
        self.session.is_some()
    }

    /// Query an int feature.
    pub fn get_feature_int<R: VmbRuntime>(&self, runtime: &mut R, name: &str) -> (r: Result<
        i64,
        VmbError,
    >)
        requires
            old(runtime).valid(),
        ensures
            advanced(
                *old(runtime),
                *final(runtime),
                PortEvent::GetFeatureInt(self@.handle, name@, r),
            ),
    {
        runtime.get_feature_int(self.handle, name)
    }

    /// Query a float feature, as the bits of the double.
    pub fn get_feature_float<R: VmbRuntime>(&self, runtime: &mut R, name: &str) -> (r: Result<
        u64,
        VmbError,
    >)
        requires
            old(runtime).valid(),
        ensures
            advanced(
                *old(runtime),
                *final(runtime),
                PortEvent::GetFeatureFloat(self@.handle, name@, r),
            ),
    {
        runtime.get_feature_float(self.handle, name)
    }

    /// Set a float feature, from the bits of the double.
    pub fn set_feature_float<R: VmbRuntime>(
        &self,
        runtime: &mut R,
        name: &str,
        bits: u64,
    ) -> (r: Result<(), VmbError>)
        requires
            old(runtime).valid(),
        ensures
            advanced(
                *old(runtime),
                *final(runtime),
                PortEvent::SetFeatureFloat(self@.handle, name@, bits, r),
            ),
    {
        runtime.set_feature_float(self.handle, name, bits)
    }

    /// Set an enum feature.
    pub fn set_feature_enum<R: VmbRuntime>(
        &self,
        runtime: &mut R,
        name: &str,
        value: &str,
    ) -> (r: Result<(), VmbError>)
        requires
            old(runtime).valid(),
        ensures
            advanced(
                *old(runtime),
                *final(runtime),
                PortEvent::SetFeatureEnum(self@.handle, name@, value@, r),
            ),
    {
        runtime.set_feature_enum(self.handle, name, value)
    }

    /// Load a settings XML, named by its path.
    pub fn load_settings<R: VmbRuntime>(&self, runtime: &mut R, path: &str) -> (r: Result<
        (),
        VmbError,
    >)
        requires
            old(runtime).valid(),
        ensures
            advanced(
                *old(runtime),
                *final(runtime),
                PortEvent::LoadSettings(self@.handle, path@, r),
            ),
    {
        runtime.load_settings(self.handle, path)
    }
}

/// The `k`-th setup call failed with `e`, and nothing followed.
spec fn prime_failed<F, D>(
    from: History<F, D>,
    after: History<F, D>,
    h: CameraHandle,
    n: nat,
    run: Priming<F>,
    k: nat,
    e: VmbError,
) -> bool {
    &&& k < Priming::<F>::steps(n)
    &&& run.slots.len() == if k < n { k } else { n }
    &&& after == from + run.done(h, n, k) + seq![run.step(h, n, k as int, Some(e))]
}

/// One more setup call succeeded.
proof fn lemma_step_done<F, D>(
    from: History<F, D>,
    now: History<F, D>,
    h: CameraHandle,
    n: nat,
    run: Priming<F>,
    k: nat,
)
    requires
        now == from + run.done(h, n, k),
    ensures
        now.push(run.step(h, n, k as int, None)) == from + run.done(h, n, k + 1),
{
    assert(now.push(run.step(h, n, k as int, None)) =~= from + run.done(h, n, k + 1));
}

/// The next setup call failed.
proof fn lemma_step_failed<F, D>(
    from: History<F, D>,
    now: History<F, D>,
    h: CameraHandle,
    n: nat,
    run: Priming<F>,
    k: nat,
    e: VmbError,
)
    requires
        now == from + run.done(h, n, k),
        k < Priming::<F>::steps(n),
        run.slots.len() == if k < n { k } else { n },
    ensures
        prime_failed(from, now.push(run.step(h, n, k as int, Some(e))), h, n, run, k, e),
{
    assert(now.push(run.step(h, n, k as int, Some(e))) =~= from + run.done(h, n, k) + seq![
        run.step(h, n, k as int, Some(e)),
    ]);
}

/// The teardown that follows both a failed start and a stop.
fn tear_down<R: VmbRuntime>(
    runtime: &mut R,
    handle: CameraHandle,
    callback_id: FrameCallbackId,
    Ghost(start): Ghost<R>,
)
    requires
        went(start, *old(runtime)),
    ensures
        went(start, *final(runtime)),
        final(runtime).history() == old(runtime).history() + teardown(handle, callback_id),
{
    let ghost r0 = *runtime;
    runtime.capture_end(handle);
    let ghost r1 = *runtime;
    runtime.capture_queue_flush(handle);
    let ghost r2 = *runtime;
    runtime.frame_revoke_all(handle);
    let ghost r3 = *runtime;
    runtime.uninstall_frame_callback(callback_id);
    proof {
        lemma_went_further(start, r0, r1, PortEvent::CaptureEnd(handle));
        lemma_went_further(start, r1, r2, PortEvent::CaptureQueueFlush(handle));
        lemma_went_further(start, r2, r3, PortEvent::FrameRevokeAll(handle));
        lemma_went_further(start, r3, *runtime, PortEvent::UninstallFrameCallback(callback_id));
        assert(runtime.history() =~= r0.history() + teardown(handle, callback_id));
    }
}

/// Announce `num_buffers` slots, start the capture, queue the slots and start
/// the acquisition; stop at the first failure.
fn prime<R: VmbRuntime>(
    runtime: &mut R,
    handle: CameraHandle,
    payload: u32,
    callback_id: FrameCallbackId,
    num_buffers: usize,
    slots: &mut Vec<FrameSlotId>,
    Ghost(callback): Ghost<Arc<FrameCallback<R::FrameFn>>>,
    Ghost(start): Ghost<R>,
) -> (r: Result<(), VmbError>)
    requires
        went(start, *old(runtime)),
        old(slots)@.len() == 0,
    ensures
        went(start, *final(runtime)),
        ({
            let run = Priming { payload, callback, callback_id, slots: final(slots)@ };
            let before = old(runtime).history();
            let after = final(runtime).history();
            match r {
                Ok(()) => {
                    &&& final(slots)@.len() == num_buffers
                    &&& after == before + run.done(
                        handle,
                        num_buffers as nat,
                        Priming::<R::FrameFn>::steps(num_buffers as nat),
                    )
                },
                Err(e) => exists|k: nat|
                    prime_failed(before, after, handle, num_buffers as nat, run, k, e),
            }
        }),
{
    let ghost before = runtime.history();
    let ghost n = num_buffers as nat;
    let ghost mut run = Priming { payload, callback, callback_id, slots: slots@ };
    assert(before =~= before + run.done(handle, n, 0));
    let mut i: usize = 0;
    while i < num_buffers
        invariant
            went(start, *runtime),
            i <= num_buffers,
            n == num_buffers,
            before == old(runtime).history(),
            slots@.len() == i,
            run == (Priming { payload, callback, callback_id, slots: slots@ }),
            runtime.history() == before + run.done(handle, n, i as nat),
        decreases num_buffers - i,
    {
        let ghost from = *runtime;
        let ghost now = runtime.history();
        let r = runtime.announce_frame(handle, payload);
        proof {
            lemma_went_further(start, from, *runtime, PortEvent::AnnounceFrame(handle, payload, r));
        }
        match r {
            Ok(slot) => {
                slots.push(slot);
                proof {
                    let grown = Priming { slots: slots@, ..run };
                    assert(run.done::<R::DiscoveryFn>(handle, n, i as nat) =~= grown.done(
                        handle,
                        n,
                        i as nat,
                    ));
                    lemma_step_done(before, now, handle, n, grown, i as nat);
                    run = grown;
                }
            },
            Err(e) => {
                proof {
                    lemma_step_failed(before, now, handle, n, run, i as nat, e);
                }
                return Err(e);
            },
        }
        i = i + 1;
    }
    let ghost from = *runtime;
    let ghost now = runtime.history();
    let r = runtime.capture_start(handle);
    proof {
        lemma_went_further(start, from, *runtime, PortEvent::CaptureStart(handle, r));
    }
    match r {
        Ok(()) => {
            proof {
                assert(r->Ok_0 == ());
                lemma_step_done(before, now, handle, n, run, n);
            }
        },
        Err(e) => {
            proof {
                lemma_step_failed(before, now, handle, n, run, n, e);
            }
            return Err(e);
        },
    }
    let mut j: usize = 0;
    while j < num_buffers
        invariant
            went(start, *runtime),
            j <= num_buffers,
            n == num_buffers,
            before == old(runtime).history(),
            slots@.len() == n,
            run == (Priming { payload, callback, callback_id, slots: slots@ }),
            runtime.history() == before + run.done(handle, n, (n + 1 + j) as nat),
        decreases num_buffers - j,
    {
        let ghost from = *runtime;
        let ghost now = runtime.history();
        let r = runtime.queue_frame(handle, slots[j], callback_id);
        proof {
            lemma_went_further(
                start,
                from,
                *runtime,
                PortEvent::QueueFrame(handle, slots@[j as int], callback_id, r),
            );
        }
        match r {
            Ok(()) => {
                proof {
                    assert(r->Ok_0 == ());
                    lemma_step_done(before, now, handle, n, run, (n + 1 + j) as nat);
                }
            },
            Err(e) => {
                proof {
                    lemma_step_failed(before, now, handle, n, run, (n + 1 + j) as nat, e);
                }
                return Err(e);
            },
        }
        j = j + 1;
    }
    let ghost from = *runtime;
    let ghost now = runtime.history();
    let r = runtime.run_feature_command(handle, FEATURE_ACQUISITION_START);
    proof {
        lemma_went_further(
            start,
            from,
            *runtime,
            PortEvent::RunFeatureCommand(handle, FEATURE_ACQUISITION_START@, r),
        );
    }
    match r {
        Ok(()) => {
            proof {
                assert(r->Ok_0 == ());
                lemma_step_done(before, now, handle, n, run, 2 * n + 1);
            }
            Ok(())
        },
        Err(e) => {
            proof {
                lemma_step_failed(before, now, handle, n, run, 2 * n + 1, e);
            }
            Err(e)
        },
    }
}

} // verus!
