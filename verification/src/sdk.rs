//! The calls into the SDK, as plain values.

use vstd::prelude::*;

use crate::error::VmbError;
use crate::types::{
    DiscoveryCallbackId, DiscoveryRegistrationHandle, FrameCallbackId, FrameSlotId,
};

verus! {

/// Text that can be handed to the SDK as a C string: it holds no NUL.
#[derive(Debug, PartialEq, Eq)]
pub struct CText {
    text: String,
}

impl View for CText {
    type V = Seq<char>;

    closed spec fn view(&self) -> Seq<char> {
        self.text@
    }
}

impl CText {
    #[verifier::type_invariant]
    spec fn without_nul(self) -> bool {
        !self.text@.contains('\0')
    }

    /// The text, unless a NUL in it would cut it short; `context` says in the
    /// error what the text was for.
    pub fn new(text: &str, context: &'static str) -> (r: Result<CText, VmbError>)
        ensures
            match r {
                Ok(c) => c@ == text@ && !text@.contains('\0'),
                Err(e) => text@.contains('\0') && e == (VmbError::InvalidString { context }),
            },
    {
        for c in it: text.chars()
            invariant
                it.seq() == text@,
                forall|i: int| 0 <= i < it.index() ==> #[trigger] text@[i] != '\0',
        {
            if c == '\0' {
                assert(text@[it.index()] == '\0');
                return Err(VmbError::InvalidString { context });
            }
        }
        Ok(CText { text: text.to_owned() })
    }

    /// Text that is known to hold no NUL.
    pub(crate) fn known(text: &str) -> (c: CText)
        requires
            !text@.contains('\0'),
        ensures
            c@ == text@,
    {
        CText { text: text.to_owned() }
    }

    /// The text.
    pub fn as_str(&self) -> (text: &str)
        ensures
            text@ == self@,
            !text@.contains('\0'),
    {
        proof {
            use_type_invariant(self);
        }
        self.text.as_str()
    }
}

/// A call into the SDK. A camera is named by the SDK's own handle, a float is
/// held as the bits of the double.
#[derive(Debug, PartialEq, Eq)]
pub enum SdkCall {
    /// Start the SDK with its default configuration.
    Startup,
    /// Shut the SDK down.
    Shutdown,
    /// List up to `capacity` cameras; with none, only count them.
    CamerasList { capacity: u32 },
    /// Open a camera with full access.
    CameraOpen { id: CText },
    CameraClose { camera: usize },
    /// Load settings with the default options.
    SettingsLoad { camera: usize, path: CText },
    FeatureIntGet { camera: usize, name: CText },
    FeatureFloatGet { camera: usize, name: CText },
    FeatureFloatSet { camera: usize, name: CText, bits: u64 },
    FeatureEnumSet { camera: usize, name: CText, value: CText },
    FeatureCommandRun { camera: usize, name: CText },
    PayloadSizeGet { camera: usize },
    /// Announce a fresh buffer of `size` bytes, whose callback does nothing yet.
    FrameAnnounce { camera: usize, size: u32 },
    CaptureStart { camera: usize },
    /// Queue the buffer of a slot, with the given callback in place of the one
    /// it had.
    CaptureFrameQueue { camera: usize, slot: FrameSlotId, callback: FrameCallbackId },
    CaptureEnd { camera: usize },
    CaptureQueueFlush { camera: usize },
    FrameRevokeAll { camera: usize },
    /// Subscribe to changes of a system-wide feature.
    InvalidationRegister { feature: CText, subscriber: DiscoveryCallbackId },
    /// End such a subscription.
    InvalidationUnregister { feature: CText, registration: DiscoveryRegistrationHandle },
}

/// A call into the SDK as contracts speak of it.
pub enum SdkCallView {
    Startup,
    Shutdown,
    CamerasList { capacity: u32 },
    CameraOpen { id: Seq<char> },
    CameraClose { camera: usize },
    SettingsLoad { camera: usize, path: Seq<char> },
    FeatureIntGet { camera: usize, name: Seq<char> },
    FeatureFloatGet { camera: usize, name: Seq<char> },
    FeatureFloatSet { camera: usize, name: Seq<char>, bits: u64 },
    FeatureEnumSet { camera: usize, name: Seq<char>, value: Seq<char> },
    FeatureCommandRun { camera: usize, name: Seq<char> },
    PayloadSizeGet { camera: usize },
    FrameAnnounce { camera: usize, size: u32 },
    CaptureStart { camera: usize },
    CaptureFrameQueue { camera: usize, slot: FrameSlotId, callback: FrameCallbackId },
    CaptureEnd { camera: usize },
    CaptureQueueFlush { camera: usize },
    FrameRevokeAll { camera: usize },
    InvalidationRegister { feature: Seq<char>, subscriber: DiscoveryCallbackId },
    InvalidationUnregister { feature: Seq<char>, registration: DiscoveryRegistrationHandle },
}

impl View for SdkCall {
    type V = SdkCallView;

    open spec fn view(&self) -> SdkCallView {
        match *self {
            SdkCall::Startup => SdkCallView::Startup,
            SdkCall::Shutdown => SdkCallView::Shutdown,
            SdkCall::CamerasList { capacity } => SdkCallView::CamerasList { capacity },
            SdkCall::CameraOpen { id } => SdkCallView::CameraOpen { id: id@ },
            SdkCall::CameraClose { camera } => SdkCallView::CameraClose { camera },
            SdkCall::SettingsLoad { camera, path } => SdkCallView::SettingsLoad {
                camera,
                path: path@,
            },
            SdkCall::FeatureIntGet { camera, name } => SdkCallView::FeatureIntGet {
                camera,
                name: name@,
            },
            SdkCall::FeatureFloatGet { camera, name } => SdkCallView::FeatureFloatGet {
                camera,
                name: name@,
            },
            SdkCall::FeatureFloatSet { camera, name, bits } => SdkCallView::FeatureFloatSet {
                camera,
                name: name@,
                bits,
            },
            SdkCall::FeatureEnumSet { camera, name, value } => SdkCallView::FeatureEnumSet {
                camera,
                name: name@,
                value: value@,
            },
            SdkCall::FeatureCommandRun { camera, name } => SdkCallView::FeatureCommandRun {
                camera,
                name: name@,
            },
            SdkCall::PayloadSizeGet { camera } => SdkCallView::PayloadSizeGet { camera },
            SdkCall::FrameAnnounce { camera, size } => SdkCallView::FrameAnnounce { camera, size },
            SdkCall::CaptureStart { camera } => SdkCallView::CaptureStart { camera },
            SdkCall::CaptureFrameQueue { camera, slot, callback } =>
                SdkCallView::CaptureFrameQueue { camera, slot, callback },
            SdkCall::CaptureEnd { camera } => SdkCallView::CaptureEnd { camera },
            SdkCall::CaptureQueueFlush { camera } => SdkCallView::CaptureQueueFlush { camera },
            SdkCall::FrameRevokeAll { camera } => SdkCallView::FrameRevokeAll { camera },
            SdkCall::InvalidationRegister { feature, subscriber } =>
                SdkCallView::InvalidationRegister { feature: feature@, subscriber },
            SdkCall::InvalidationUnregister { feature, registration } =>
                SdkCallView::InvalidationUnregister { feature: feature@, registration },
        }
    }
}

/// A call that may not be needed.
pub open spec fn optional(call: Option<SdkCall>) -> Option<SdkCallView> {
    match call {
        Some(call) => Some(call@),
        None => None,
    }
}

/// The outcome of planning a call.
pub open spec fn planned(r: Result<SdkCall, VmbError>) -> Result<SdkCallView, VmbError> {
    match r {
        Ok(call) => Ok(call@),
        Err(e) => Err(e),
    }
}

} // verus!
