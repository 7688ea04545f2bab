use vstd::prelude::*;
use crate::info::HIDDeviceInfo;
use crate::util::{spec_mac_string, spec_str_contains, address_bytes_to_string, str_contains};

verus! {

/// The vendor identifier of a PS Move controller.
pub const PS_MOVE_VID: u16 = 0x054c;

/// The product identifier of a PS Move controller (model ZCM1).
pub const PS_MOVE_PID: u16 = 0x03d5;

/// Length of the Bluetooth-address feature report on the ZCM1 model.
pub const PSMOVE_BTADDR_GET_ZCM1_SIZE: usize = 16;

/// Length of the Bluetooth-address feature report on the ZCM2 model.
pub const PSMOVE_BTADDR_GET_ZCM2_SIZE: usize = 21;

/// A buffer of this length holds the report for either model.
pub const PSMOVE_BTADDR_GET_MAX_SIZE: usize = PSMOVE_BTADDR_GET_ZCM2_SIZE;

/// The feature-report requests a PS Move controller understands.
pub enum PSMoveRequestType {
    /// Ask for the controller's and its paired host's Bluetooth
    /// addresses.
    GetBTAddr,
}

impl PSMoveRequestType {
    /// The report ID wired for this request.
    pub open spec fn spec_code(&self) -> u8 {
        match self {
            PSMoveRequestType::GetBTAddr => 4,
        }
    }

    /// The report ID wired for this request.
    pub fn code(&self) -> (c: u8)
        ensures
            c == self.spec_code(),
    {
        match self {
            PSMoveRequestType::GetBTAddr => 4,
        }
    }
}

/// Builds the feature-report buffer that asks a controller for its
/// Bluetooth pairing state: the request's report ID in the first byte,
/// sized for the larger of the two controller models, zero elsewhere.
pub fn build_btaddr_request() -> (r: Vec<u8>)
    ensures
        r@.len() == PSMOVE_BTADDR_GET_MAX_SIZE,
        r@[0] == PSMoveRequestType::GetBTAddr.spec_code(),
        forall|i: int| 1 <= i < r@.len() ==> r@[i] == 0,
{
    let req = PSMoveRequestType::GetBTAddr;
    let mut r: Vec<u8> = Vec::new();
    r.push(req.code());
    let mut i: usize = 1;
    while i < PSMOVE_BTADDR_GET_MAX_SIZE
        invariant
            1 <= i <= PSMOVE_BTADDR_GET_MAX_SIZE,
            r@.len() == i,
            r@[0] == PSMoveRequestType::GetBTAddr.spec_code(),
            forall|j: int| 1 <= j < i ==> r@[j] == 0,
        decreases PSMOVE_BTADDR_GET_MAX_SIZE - i,
    {
        r.push(0);
        i = i + 1;
    }
    r
}

/// The controller's own Bluetooth address as the report carries it:
/// bytes one through six, least significant first, so the readable form
/// reverses them.
pub open spec fn spec_controller_addr_bytes(data: Seq<u8>) -> Seq<u8> {
    seq![data[6], data[5], data[4], data[3], data[2], data[1]]
}

/// The host address the controller is paired to, bytes ten through
/// fifteen of the report, least significant first.
pub open spec fn spec_paired_host_addr_bytes(data: Seq<u8>) -> Seq<u8> {
    seq![data[15], data[14], data[13], data[12], data[11], data[10]]
}

/// Reads the two Bluetooth addresses out of a controller's
/// pairing-state feature report: first the host address the controller
/// is currently paired to, then the controller's own address, each
/// rendered as colon-separated lowercase hex pairs.
pub fn get_controller_pair_from_report(data: &[u8]) -> (pair: (String, String))
    requires
        data@.len() >= PSMOVE_BTADDR_GET_ZCM1_SIZE,
    ensures
        pair.0@ == spec_mac_string(spec_paired_host_addr_bytes(data@)),
        pair.1@ == spec_mac_string(spec_controller_addr_bytes(data@)),
{
    let mut host: Vec<u8> = Vec::new();
    host.push(data[15]);
    host.push(data[14]);
    host.push(data[13]);
    host.push(data[12]);
    host.push(data[11]);
    host.push(data[10]);
    proof {
        assert(host@ =~= spec_paired_host_addr_bytes(data@));
    }
    let mut cont: Vec<u8> = Vec::new();
    cont.push(data[6]);
    cont.push(data[5]);
    cont.push(data[4]);
    cont.push(data[3]);
    cont.push(data[2]);
    cont.push(data[1]);
    proof {
        assert(cont@ =~= spec_controller_addr_bytes(data@));
    }
    (address_bytes_to_string(host.as_slice()), address_bytes_to_string(cont.as_slice()))
}

/// The interface-path fragment that marks the second collection of a
/// PS Move controller's HID interface, the one its pairing report is
/// read from.
pub open spec fn spec_pair_collection_marker() -> Seq<char> {
    "&col02#"@
}

/// Whether a discovered device is the PS Move controller interface the
/// pairing exchange talks to: the controller's vendor and product
/// identifiers, on the interface path of its second collection.
pub fn is_ps_move_pair_interface(info: &HIDDeviceInfo) -> (r: bool)
    ensures
        r == (info.vendor_id == PS_MOVE_VID && info.product_id == PS_MOVE_PID
            && spec_str_contains(info.path@, spec_pair_collection_marker())),
{
    info.vendor_id == PS_MOVE_VID && info.product_id == PS_MOVE_PID && str_contains(
        info.path.as_str(),
        "&col02#",
    )
}

} // verus!
