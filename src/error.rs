//! Failures of the capture pipeline.
use vstd::prelude::*;

verus! {

/// Why a capture operation did not succeed. None of them is fatal.
#[derive(Clone, Copy, Debug, PartialEq, Eq, Structural)]
pub enum CaptureError {
    /// The device identifier is not a non-negative integer.
    InvalidDeviceId,
    /// The device ordinal is past the end of the current enumeration.
    DeviceNotFound,
    /// The device's native sample format cannot be decoded.
    UnsupportedFormat,
    /// There is no live stream to pause.
    NoActiveStream,
    /// The audio subsystem reported a fault on a running stream.
    HardwareStreamError,
}

} // verus!
