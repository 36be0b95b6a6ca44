//! The closures a user hands to a runtime.

use vstd::prelude::*;

use crate::frame::Frame;
use crate::types::DiscoveryEvent;

verus! {

/// The closure can be called with any event.
pub open spec fn takes_any_event<F: Fn(DiscoveryEvent)>(f: F) -> bool {
    forall|event: DiscoveryEvent| #[trigger] call_requires(f, (event,))
}

/// The closure can be called with any frame.
pub open spec fn takes_any_frame<F: for <'a>Fn(&Frame<'a>)>(f: F) -> bool {
    forall|frame: &Frame<'static>| #[trigger] call_requires(f, (frame,))
}

/// A discovery callback as a runtime stores it.
///
/// The closure is invoked from whatever thread the runtime fires it on, so it
/// must be `Send + Sync + 'static`. A runtime that has to keep closures of
/// different types takes a boxed one as `F`.
pub struct DiscoveryCallback<F> {
    inner: F,
}

impl<F> DiscoveryCallback<F> {
    /// The wrapped closure.
    pub closed spec fn closure(self) -> F {
        self.inner
    }
}

impl<F> DiscoveryCallback<F> where F: Fn(DiscoveryEvent) + Send + Sync + 'static {
    /// Wrap a closure.
    pub fn new(f: F) -> (cb: Self)
        ensures
            cb.closure() == f,
    {
        DiscoveryCallback { inner: f }
    }

    /// Invoke the closure with the given event.
    pub fn invoke(&self, event: DiscoveryEvent)
        requires
            call_requires(self.closure(), (event,)),
        ensures
            call_ensures(self.closure(), (event,), ()),
    {
        (self.inner)(event);
    }
}

/// A frame callback as a runtime stores it, invoked once per received frame.
pub struct FrameCallback<F> {
    inner: F,
}

impl<F> FrameCallback<F> {
    /// The wrapped closure.
    pub closed spec fn closure(self) -> F {
        self.inner
    }

    /// Wrap a closure.
    pub fn new(f: F) -> (cb: Self)
        ensures
            cb.closure() == f,
    {
        FrameCallback { inner: f }
    }
}

impl<F> FrameCallback<F> where F: for <'a>Fn(&Frame<'a>) + Send + Sync + 'static {
    /// Invoke the closure with the given frame.
    pub fn invoke(&self, frame: &Frame<'_>)
        requires
            call_requires(self.closure(), (frame,)),
        ensures
            call_ensures(self.closure(), (frame,), ()),
    {
        (self.inner)(frame);
    }
}

} // verus!
