//! Errors of the audio bridge.

use vstd::prelude::*;

verus! {

/// What can go wrong while opening or running a device session.
#[derive(Clone, Copy, Debug, PartialEq, Eq, Structural)]
pub enum AudioError {
    /// No hardware is present.
    DeviceUnavailable,
    /// The backend cannot run at the requested sample rate.
    UnsupportedRate,
    /// The user or the system refused access to the device.
    PermissionDenied,
    /// An output session was asked for a period before the last one was
    /// filled.
    BufferUnderrun,
    /// An input session produced a period before the last one was consumed.
    BufferOverrun,
    /// A second await was attempted while one was pending.
    AwaitMisuse,
}

impl AudioError {
    /// Whether the session can go on after this error.  Cadence errors and
    /// await misuse leave the session usable; open-time errors do not, since
    /// there is no session.
    pub open spec fn spec_recoverable(self) -> bool {
        self == AudioError::BufferUnderrun || self == AudioError::BufferOverrun
            || self == AudioError::AwaitMisuse
    }

    /// Whether the session can go on after this error.
    pub fn recoverable(self) -> (r: bool)
        ensures
            r == self.spec_recoverable(),
    {
        match self {
            AudioError::BufferUnderrun | AudioError::BufferOverrun | AudioError::AwaitMisuse => true,
            _ => false,
        }
    }
}

} // verus!
