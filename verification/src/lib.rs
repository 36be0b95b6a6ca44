//! Camera capture over the Vimba X SDK.
//!
//! * [`port`] is the interface through which the capture logic talks to a
//!   backend, together with the history of the calls made through it.
//! * [`camera`] drives a capture session through the port.
//! * [`fake`] is an in-memory backend for tests.
//! * [`ffi`] is the bookkeeping of the production backend: which SDK call to
//!   make next, and what its reply means.

pub mod callback;
pub mod camera;
pub mod capture_laws;
pub mod error;
pub mod failures;
pub mod fake;
pub mod fake_call_laws;
pub mod fake_capture_laws;
pub mod fake_laws;
pub mod fake_model;
pub mod ffi;
pub mod ffi_laws;
pub mod frame;
pub mod ids;
pub mod port;
pub mod port_laws;
pub mod sdk;
pub mod sdk_laws;
pub mod session_laws;
pub mod types;

pub use callback::{DiscoveryCallback, FrameCallback};
pub use camera::Camera;
pub use error::{check, VmbError};
pub use failures::Method;
pub use fake::{FakeCall, FakeVmbRuntime};
pub use ffi::VmbFfiRuntime;
pub use frame::{Frame, PixelFormat};
pub use port::{RuntimeModel, VmbRuntime};
pub use types::{
    CameraHandle, CameraInfo, DiscoveryCallbackId, DiscoveryEvent, DiscoveryRegistrationHandle,
    FrameCallbackId, FrameSlotId,
};
