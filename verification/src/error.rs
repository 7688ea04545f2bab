use vstd::prelude::*;

verus! {

/// Errors surfaced by the device discovery and feature-report subsystem.
///
/// Every failure reported by the operating system carries the platform's
/// last error code, so causes stay diagnosable. The remaining variants are
/// failures this library detects itself before or after an OS call.
#[derive(Clone, Copy, Debug, PartialEq, Eq, Structural)]
pub enum HidError {
    /// The OS reported a failure; `code` is the platform's last error code.
    Os { code: u32 },
    /// The device path returned by the detail query was not valid UTF-8.
    PathNotUtf8,
    /// The detail query asked for a buffer larger than the documented
    /// maximum this library is willing to allocate.
    DetailTooLarge { required: u32 },
    /// A feature report was requested with an empty buffer, which cannot
    /// even carry the report ID.
    EmptyBuffer,
    /// An operation was attempted on a handle that has already been closed.
    HandleClosed,
}

} // verus!
