use vstd::prelude::*;
use vstd::string::StringExecFns;
use crate::util::{spec_u16_hex, u16_hex};

verus! {

/// What one discovered device looks like to a caller.
///
/// The enumeration protocol fills in the vendor, product and release
/// identifiers it reads from the device's attributes, and the device
/// path that re-opens the device later. The remaining fields are
/// reserved slots for attributes the protocol does not resolve yet and
/// stay empty.
#[derive(Debug)]
pub struct HIDDeviceInfo {
    pub vendor_id: u16,
    pub product_id: u16,
    pub release_number: u16,
    pub interface_number: u16,
    pub path: String,
    pub class: String,
    pub driver_name: String,
    pub serial_number: String,
    pub manufacturer_string: String,
    pub product_string: String,
}

/// The mathematical shadow of [`HIDDeviceInfo`]: the same fields with
/// every string read as its character sequence.
#[verifier::ext_equal]
pub struct SpecDeviceInfo {
    pub vendor_id: u16,
    pub product_id: u16,
    pub release_number: u16,
    pub interface_number: u16,
    pub path: Seq<char>,
    pub class: Seq<char>,
    pub driver_name: Seq<char>,
    pub serial_number: Seq<char>,
    pub manufacturer_string: Seq<char>,
    pub product_string: Seq<char>,
}

impl View for HIDDeviceInfo {
    type V = SpecDeviceInfo;

    open spec fn view(&self) -> SpecDeviceInfo {
        SpecDeviceInfo {
            vendor_id: self.vendor_id,
            product_id: self.product_id,
            release_number: self.release_number,
            interface_number: self.interface_number,
            path: self.path@,
            class: self.class@,
            driver_name: self.driver_name@,
            serial_number: self.serial_number@,
            manufacturer_string: self.manufacturer_string@,
            product_string: self.product_string@,
        }
    }
}

/// A record as the enumeration protocol populates it: identity
/// attributes and the device path filled in, every reserved slot empty.
pub open spec fn spec_resolved_info(
    vendor_id: u16,
    product_id: u16,
    release_number: u16,
    path: Seq<char>,
) -> SpecDeviceInfo {
    SpecDeviceInfo {
        vendor_id,
        product_id,
        release_number,
        interface_number: 0,
        path,
        class: Seq::empty(),
        driver_name: Seq::empty(),
        serial_number: Seq::empty(),
        manufacturer_string: Seq::empty(),
        product_string: Seq::empty(),
    }
}

impl HIDDeviceInfo {
    /// Builds the record for a resolved device: the three identity
    /// attributes and the path, with every reserved slot left empty.
    pub fn resolved(vendor_id: u16, product_id: u16, release_number: u16, path: String) -> (r:
        HIDDeviceInfo)
        ensures
            r@ == spec_resolved_info(vendor_id, product_id, release_number, path@),
    {
        let r = HIDDeviceInfo {
            vendor_id,
            product_id,
            release_number,
            interface_number: 0,
            path,
            class: String::new(),
            driver_name: String::new(),
            serial_number: String::new(),
            manufacturer_string: String::new(),
            product_string: String::new(),
        };
        proof {
            assert(r@.class =~= Seq::<char>::empty());
            assert(r@.driver_name =~= Seq::<char>::empty());
            assert(r@.serial_number =~= Seq::<char>::empty());
            assert(r@.manufacturer_string =~= Seq::<char>::empty());
            assert(r@.product_string =~= Seq::<char>::empty());
        }
        r
    }

    /// One line a person can read off a listing: the vendor and
    /// product identifiers as hexadecimal literals, and the device
    /// path.
    pub fn display_string(&self) -> (s: String)
        ensures
            s@ == "vendor_id: "@ + spec_u16_hex(self.vendor_id) + ", product_id: "@ + spec_u16_hex(
                self.product_id,
            ) + ", path: "@ + self.path@,
    {
        let mut s = String::from_str("vendor_id: ");
        let vendor = u16_hex(self.vendor_id);
        s.append(vendor.as_str());
        s.append(", product_id: ");
        let product = u16_hex(self.product_id);
        s.append(product.as_str());
        s.append(", path: ");
        s.append(self.path.as_str());
        proof {
            assert(s@ =~= "vendor_id: "@ + spec_u16_hex(self.vendor_id) + ", product_id: "@
                + spec_u16_hex(self.product_id) + ", path: "@ + self.path@);
        }
        s
    }
}

} // verus!
