use vstd::prelude::*;
use crate::error::HidError;

verus! {

/// Access right asking for reads, as the OS encodes it.
pub const GENERIC_READ: u32 = 0x8000_0000;

/// Access right asking for writes, as the OS encodes it.
pub const GENERIC_WRITE: u32 = 0x4000_0000;

/// Share flag letting other handles read while ours is open.
pub const FILE_SHARE_READ: u32 = 0x1;

/// Share flag letting other handles write while ours is open.
pub const FILE_SHARE_WRITE: u32 = 0x2;

/// Creation disposition that opens an existing object and never creates.
pub const OPEN_EXISTING: u32 = 0x3;

/// File flag requesting overlapped (asynchronous-capable) I/O.
pub const FILE_FLAG_OVERLAPPED: u32 = 0x4000_0000;

/// The parameters a device-open call hands to the OS.
#[derive(Clone, Copy, Debug, PartialEq, Eq, Structural)]
pub struct OpenParams {
    pub desired_access: u32,
    pub share_mode: u32,
    pub creation_disposition: u32,
    pub flags: u32,
}

/// The open-mode policy for device handles: sharing is always granted to
/// others and overlapped I/O is always requested; access rights are none
/// at all (metadata only) when opening just to enumerate, else
/// read plus write.
pub open spec fn spec_open_params(enumerate_only: bool) -> OpenParams {
    OpenParams {
        desired_access: if enumerate_only {
            0
        } else {
            GENERIC_READ | GENERIC_WRITE
        },
        share_mode: FILE_SHARE_READ | FILE_SHARE_WRITE,
        creation_disposition: OPEN_EXISTING,
        flags: FILE_FLAG_OVERLAPPED,
    }
}

/// Computes what an open call must ask the OS for a device path:
/// metadata-only access when `enumerate_only`, read/write access
/// otherwise, always shared and always overlapped.
pub fn open_params(enumerate_only: bool) -> (p: OpenParams)
    ensures
        p == spec_open_params(enumerate_only),
{
    let desired_access: u32 = if enumerate_only {
        0
    } else {
        GENERIC_READ | GENERIC_WRITE
    };
    OpenParams {
        desired_access,
        share_mode: FILE_SHARE_READ | FILE_SHARE_WRITE,
        creation_disposition: OPEN_EXISTING,
        flags: FILE_FLAG_OVERLAPPED,
    }
}

/// The lifecycle state of one opened device, the resource behind a raw
/// OS handle. Constructing it through [`DeviceHandle::from_open_event`]
/// is the only way to obtain an open one, and [`DeviceHandle::on_close`]
/// the only way to close it again.
#[derive(Clone, Copy, Debug, PartialEq, Eq, Structural)]
pub struct DeviceHandle {
    /// Whether the handle is still open.
    pub is_open: bool,
    /// Whether it was opened with metadata-only access (no read/write).
    pub metadata_only: bool,
}

/// The identity attributes the OS reports for an open device.
#[derive(Clone, Copy, Debug, PartialEq, Eq, Structural)]
pub struct DeviceAttributes {
    pub vendor_id: u16,
    pub product_id: u16,
    pub release_number: u16,
}

impl DeviceHandle {
    /// Turns the OS's answer to an open call into a handle or an error:
    /// an invalid-handle result becomes an OS error carrying the
    /// platform's last error code, anything else is an open handle in
    /// the requested mode.
    pub fn from_open_event(enumerate_only: bool, valid: bool, error_code: u32) -> (r: Result<
        DeviceHandle,
        HidError,
    >)
        ensures
            valid ==> r == Ok::<DeviceHandle, HidError>(
                DeviceHandle { is_open: true, metadata_only: enumerate_only },
            ),
            !valid ==> r == Err::<DeviceHandle, HidError>(HidError::Os { code: error_code }),
    {
        if valid {
            Ok(DeviceHandle { is_open: true, metadata_only: enumerate_only })
        } else {
            Err(HidError::Os { code: error_code })
        }
    }

    /// Records the OS's answer to the close call. The handle is gone
    /// either way; a failure still surfaces as an OS error.
    pub fn on_close(&mut self, ok: bool, error_code: u32) -> (r: Result<(), HidError>)
        requires
            old(self).is_open,
        ensures
            !final(self).is_open,
            final(self).metadata_only == old(self).metadata_only,
            ok ==> r == Ok::<(), HidError>(()),
            !ok ==> r == Err::<(), HidError>(HidError::Os { code: error_code }),
    {
        self.is_open = false;
        if ok {
            Ok(())
        } else {
            Err(HidError::Os { code: error_code })
        }
    }

    /// Accepts an attribute query's answer only while the handle is
    /// open: a closed handle can never yield attributes, so stale data
    /// cannot slip through after the close.
    pub fn accept_attributes(&self, vendor_id: u16, product_id: u16, release_number: u16) -> (r:
        Result<DeviceAttributes, HidError>)
        ensures
            self.is_open ==> r == Ok::<DeviceAttributes, HidError>(
                DeviceAttributes { vendor_id, product_id, release_number },
            ),
            !self.is_open ==> r == Err::<DeviceAttributes, HidError>(HidError::HandleClosed),
    {
        if self.is_open {
            Ok(DeviceAttributes { vendor_id, product_id, release_number })
        } else {
            Err(HidError::HandleClosed)
        }
    }
}

/// One opened HID device, as handed to callers that want to talk to it.
#[derive(Clone, Copy, Debug, PartialEq, Eq, Structural)]
pub struct HIDDevice {
    pub handle: DeviceHandle,
}

} // verus!
