//! Identifiers and plain records that cross the port.

use vstd::prelude::*;

verus! {

/// An open camera. The number inside is never zero.
#[derive(Debug, Clone, Copy, PartialEq, Eq, Structural, Hash)]
pub struct CameraHandle {
    raw: u64,
}

impl View for CameraHandle {
    type V = u64;

    closed spec fn view(&self) -> u64 {
        self.raw
    }
}

impl CameraHandle {
    #[verifier::type_invariant]
    spec fn nonzero(self) -> bool {
        self.raw != 0
    }

    /// The handle with the given number.
    pub fn new(raw: u64) -> (handle: Self)
        requires
            raw != 0,
        ensures
            handle@ == raw,
    {
        CameraHandle { raw }
    }

    /// The number of the handle.
    pub fn get(self) -> (raw: u64)
        ensures
            raw == self@,
            raw != 0,
    {
        proof {
            use_type_invariant(&self);
        }
        self.raw
    }
}

/// A handle is its number: two handles with the same number are the same.
pub proof fn law_handle_is_its_number(a: CameraHandle, b: CameraHandle)
    requires
        a@ == b@,
    ensures
        a == b,
{
}

/// An announced frame buffer.
#[derive(Debug, Clone, Copy, PartialEq, Eq, Structural, Hash)]
pub struct FrameSlotId(pub u64);

/// An installed frame callback.
#[derive(Debug, Clone, Copy, PartialEq, Eq, Structural, Hash)]
pub struct FrameCallbackId(pub u64);

/// An installed discovery callback.
#[derive(Debug, Clone, Copy, PartialEq, Eq, Structural, Hash)]
pub struct DiscoveryCallbackId(pub u64);

/// A live discovery subscription.
#[derive(Debug, Clone, Copy, PartialEq, Eq, Structural, Hash)]
pub struct DiscoveryRegistrationHandle(pub u64);

/// What is known of a camera before it is opened.
#[derive(Debug, PartialEq, Eq)]
pub struct CameraInfo {
    pub id: String,
    pub model: String,
    pub serial: String,
    pub name: String,
}

impl Clone for CameraInfo {
    fn clone(&self) -> (copy: Self)
        ensures
            copy == *self,
    {
        CameraInfo {
            id: self.id.clone(),
            model: self.model.clone(),
            serial: self.serial.clone(),
            name: self.name.clone(),
        }
    }
}

/// A camera came into view or went out of it.
#[derive(Debug, PartialEq, Eq)]
pub enum DiscoveryEvent {
    /// The camera with this ID is now visible.
    Detected(String),
    /// The camera with this ID is no longer visible.
    Missing(String),
}

impl Clone for DiscoveryEvent {
    fn clone(&self) -> (copy: Self)
        ensures
            copy == *self,
    {
        match self {
            DiscoveryEvent::Detected(id) => DiscoveryEvent::Detected(id.clone()),
            DiscoveryEvent::Missing(id) => DiscoveryEvent::Missing(id.clone()),
        }
    }
}

} // verus!
