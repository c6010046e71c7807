//! The error taxonomy of the session layer.

use vstd::prelude::*;

verus! {

/// Everything that can go wrong between the session layer and its device.
#[derive(Clone, Copy, Debug, PartialEq, Eq, Structural)]
pub enum SessionError {
    /// The device cannot enter the mode that grid rendering requires: it is
    /// not an interactive terminal, or the protocol is unsupported.
    DeviceUnavailable,
    /// A read from or write to the device failed transiently.
    DeviceIOError,
    /// Cleanup could not fully reverse a mode change; logged, never fatal.
    RestoreFailure,
    /// The application assumed a capability the active backend variant does
    /// not have: a programmer error, surfaced at construction.
    BackendMismatch,
}

impl SessionError {
    /// Whether shutdown may continue past this error: a failed restore is
    /// swallowed after logging, every other error propagates.
    pub fn recoverable_on_shutdown(&self) -> (r: bool)
        ensures
            r == (self is RestoreFailure),
    {
        match self {
            SessionError::RestoreFailure => true,
            _ => false,
        }
    }
}

} // verus!
