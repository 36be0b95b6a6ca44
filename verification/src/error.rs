//! The error type of the library.

use vstd::prelude::*;

verus! {

/// Why a camera operation was refused.
#[derive(Debug, PartialEq, Eq)]
pub enum VmbError {
    /// `startup` was called while the runtime was already started.
    AlreadyStarted,
    /// `start_capture` was called on a camera that is already capturing.
    CaptureAlreadyRunning,
    /// The SDK's shared library, or a symbol in it, could not be loaded.
    LoadFailed { message: String },
    /// A name, path or identifier cannot be used where it was passed.
    InvalidString { context: &'static str },
    /// The SDK answered with this non-zero return code.
    Sdk { code: i32 },
}

impl Clone for VmbError {
    fn clone(&self) -> (copy: Self)
        ensures
            copy == *self,
    {
        match self {
            VmbError::AlreadyStarted => VmbError::AlreadyStarted,
            VmbError::CaptureAlreadyRunning => VmbError::CaptureAlreadyRunning,
            VmbError::LoadFailed { message } => VmbError::LoadFailed { message: message.clone() },
            VmbError::InvalidString { context } => VmbError::InvalidString { context: *context },
            VmbError::Sdk { code } => VmbError::Sdk { code: *code },
        }
    }
}

/// What an SDK return code means: zero is success.
pub fn check(code: i32) -> (result: Result<(), VmbError>)
    ensures
        result == checked(code),
{
    if code == 0 {
        Ok(())
    } else {
        Err(VmbError::Sdk { code })
    }
}

/// The meaning of an SDK return code.
pub open spec fn checked(code: i32) -> Result<(), VmbError> {
    if code == 0 {
        Ok(())
    } else {
        Err(VmbError::Sdk { code })
    }
}

} // verus!
