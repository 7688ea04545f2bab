use vstd::prelude::*;
use vstd::string::StringExecFns;
use vstd::utf8::{decode_utf8, valid_utf8};
use crate::device::{DeviceAttributes, DeviceHandle};
use crate::error::HidError;
use crate::info::{spec_resolved_info, HIDDeviceInfo, SpecDeviceInfo};
use crate::util::{spec_nul_prefix, try_bytes_to_str};

verus! {

/// The largest detail buffer the path query may ask for. A required
/// size beyond this bound is reported as an explicit error rather than
/// allocated blindly or silently truncated.
pub const MAX_DETAIL_SIZE: u32 = 4096;

/// The registry class name that marks a device as serviced by the HID
/// class driver.
pub open spec fn spec_hid_class_name() -> Seq<char> {
    "HIDClass"@
}

/// What the OS answered to the probe step the resolver last asked for.
/// Each variant carries the whole answer as plain values, failure
/// status and last error code included.
pub enum ProbeEvent {
    /// Whether a device interface exists at the probed index.
    Interface { exists: bool },
    /// Phase one of the detail retrieval: the reported boolean status
    /// (documented to be failure even on success) and the required
    /// buffer size written through the out-parameter.
    DetailSize { os_status: bool, required_size: u32, error_code: u32 },
    /// Phase two of the detail retrieval: the real status and the
    /// filled, NUL-terminated path buffer.
    Detail { ok: bool, error_code: u32, data: Vec<u8> },
    /// Whether a device-level record exists at the probed index.
    DeviceRecord { exists: bool },
    /// The device's registry class-name property, absent on failure.
    ClassName { ok: bool, data: Vec<u8> },
    /// Whether the device's driver-key property is present.
    DriverKey { present: bool },
    /// The answer to the metadata-only open call.
    Opened { valid: bool, error_code: u32 },
    /// The attributes read through the open handle.
    Attributes { vendor_id: u16, product_id: u16, release_number: u16 },
    /// The answer to the close call.
    Closed { ok: bool, error_code: u32 },
}

/// The mathematical shadow of [`ProbeEvent`].
pub enum SpecProbeEvent {
    Interface { exists: bool },
    DetailSize { os_status: bool, required_size: u32, error_code: u32 },
    Detail { ok: bool, error_code: u32, data: Seq<u8> },
    DeviceRecord { exists: bool },
    ClassName { ok: bool, data: Seq<u8> },
    DriverKey { present: bool },
    Opened { valid: bool, error_code: u32 },
    Attributes { vendor_id: u16, product_id: u16, release_number: u16 },
    Closed { ok: bool, error_code: u32 },
}

impl View for ProbeEvent {
    type V = SpecProbeEvent;

    open spec fn view(&self) -> SpecProbeEvent {
        match self {
            ProbeEvent::Interface { exists } => SpecProbeEvent::Interface { exists: *exists },
            ProbeEvent::DetailSize { os_status, required_size, error_code } =>
                SpecProbeEvent::DetailSize {
                os_status: *os_status,
                required_size: *required_size,
                error_code: *error_code,
            },
            ProbeEvent::Detail { ok, error_code, data } => SpecProbeEvent::Detail {
                ok: *ok,
                error_code: *error_code,
                data: data@,
            },
            ProbeEvent::DeviceRecord { exists } => SpecProbeEvent::DeviceRecord {
                exists: *exists,
            },
            ProbeEvent::ClassName { ok, data } => SpecProbeEvent::ClassName {
                ok: *ok,
                data: data@,
            },
            ProbeEvent::DriverKey { present } => SpecProbeEvent::DriverKey { present: *present },
            ProbeEvent::Opened { valid, error_code } => SpecProbeEvent::Opened {
                valid: *valid,
                error_code: *error_code,
            },
            ProbeEvent::Attributes { vendor_id, product_id, release_number } =>
                SpecProbeEvent::Attributes {
                vendor_id: *vendor_id,
                product_id: *product_id,
                release_number: *release_number,
            },
            ProbeEvent::Closed { ok, error_code } => SpecProbeEvent::Closed {
                ok: *ok,
                error_code: *error_code,
            },
        }
    }
}

/// How one probed index ends: the scan is over, the device is not a
/// HID-class device, its resolution failed, or it matched.
pub enum ProbeOutcome {
    /// No interface exists at this index; the whole scan is over.
    NoMoreDevices,
    /// A device exists here but is not bound to the HID class driver;
    /// it is skipped without producing an element.
    NotMatching,
    /// A device exists and matched the class check, but resolving it
    /// failed; the error is reported for this device only.
    Failed { error: HidError },
    /// The device matched and its record was resolved.
    Matched { info: HIDDeviceInfo },
}

/// The mathematical shadow of [`ProbeOutcome`].
pub enum SpecProbeOutcome {
    NoMoreDevices,
    NotMatching,
    Failed { error: HidError },
    Matched { info: SpecDeviceInfo },
}

impl View for ProbeOutcome {
    type V = SpecProbeOutcome;

    open spec fn view(&self) -> SpecProbeOutcome {
        match self {
            ProbeOutcome::NoMoreDevices => SpecProbeOutcome::NoMoreDevices,
            ProbeOutcome::NotMatching => SpecProbeOutcome::NotMatching,
            ProbeOutcome::Failed { error } => SpecProbeOutcome::Failed { error: *error },
            ProbeOutcome::Matched { info } => SpecProbeOutcome::Matched { info: info@ },
        }
    }
}

/// Where the resolver stands in the probe of one index: which OS answer
/// it waits for, and what it has established so far.
pub enum ResolvePhase {
    AwaitInterface,
    AwaitDetailSize,
    AwaitDetail { size: u32 },
    AwaitDeviceRecord { path: String },
    AwaitClassName { path: String },
    AwaitDriverKey { path: String },
    AwaitOpen { path: String },
    AwaitAttributes { path: String, handle: DeviceHandle },
    AwaitClose { info: HIDDeviceInfo, handle: DeviceHandle },
    Done { outcome: ProbeOutcome },
}

/// The mathematical shadow of [`ResolvePhase`].
pub enum SpecResolvePhase {
    AwaitInterface,
    AwaitDetailSize,
    AwaitDetail { size: u32 },
    AwaitDeviceRecord { path: Seq<char> },
    AwaitClassName { path: Seq<char> },
    AwaitDriverKey { path: Seq<char> },
    AwaitOpen { path: Seq<char> },
    AwaitAttributes { path: Seq<char>, handle: DeviceHandle },
    AwaitClose { info: SpecDeviceInfo, handle: DeviceHandle },
    Done { outcome: SpecProbeOutcome },
}

impl View for ResolvePhase {
    type V = SpecResolvePhase;

    open spec fn view(&self) -> SpecResolvePhase {
        match self {
            ResolvePhase::AwaitInterface => SpecResolvePhase::AwaitInterface,
            ResolvePhase::AwaitDetailSize => SpecResolvePhase::AwaitDetailSize,
            ResolvePhase::AwaitDetail { size } => SpecResolvePhase::AwaitDetail { size: *size },
            ResolvePhase::AwaitDeviceRecord { path } => SpecResolvePhase::AwaitDeviceRecord {
                path: path@,
            },
            ResolvePhase::AwaitClassName { path } => SpecResolvePhase::AwaitClassName {
                path: path@,
            },
            ResolvePhase::AwaitDriverKey { path } => SpecResolvePhase::AwaitDriverKey {
                path: path@,
            },
            ResolvePhase::AwaitOpen { path } => SpecResolvePhase::AwaitOpen { path: path@ },
            ResolvePhase::AwaitAttributes { path, handle } => SpecResolvePhase::AwaitAttributes {
                path: path@,
                handle: *handle,
            },
            ResolvePhase::AwaitClose { info, handle } => SpecResolvePhase::AwaitClose {
                info: info@,
                handle: *handle,
            },
            ResolvePhase::Done { outcome } => SpecResolvePhase::Done { outcome: outcome@ },
        }
    }
}

/// The OS call the driving loop must perform next for this resolver.
#[derive(Clone, Copy, Debug, PartialEq, Eq, Structural)]
pub enum ProbeAction {
    /// Ask whether a device interface exists at the resolver's index.
    QueryInterface,
    /// Ask for the required detail-buffer size (null output buffer).
    QueryDetailSize,
    /// Retrieve the interface detail into a buffer of the negotiated size.
    QueryDetail,
    /// Ask whether a device-level record exists at the resolver's index.
    QueryDeviceRecord,
    /// Query the device's registry class-name property.
    QueryClassName,
    /// Query the device's registry driver-key property.
    QueryDriverKey,
    /// Open the resolved path with metadata-only access.
    OpenDevice,
    /// Read the device attributes through the open handle.
    QueryAttributes,
    /// Close the metadata-only handle.
    CloseDevice,
    /// Nothing: the probe has finished and holds its outcome.
    Finished,
}

/// Whether the event is the kind of answer the phase waits for.
pub open spec fn spec_expects(phase: SpecResolvePhase, ev: SpecProbeEvent) -> bool {
    match (phase, ev) {
        (SpecResolvePhase::AwaitInterface, SpecProbeEvent::Interface { .. }) => true,
        (SpecResolvePhase::AwaitDetailSize, SpecProbeEvent::DetailSize { .. }) => true,
        (SpecResolvePhase::AwaitDetail { .. }, SpecProbeEvent::Detail { .. }) => true,
        (SpecResolvePhase::AwaitDeviceRecord { .. }, SpecProbeEvent::DeviceRecord { .. }) => true,
        (SpecResolvePhase::AwaitClassName { .. }, SpecProbeEvent::ClassName { .. }) => true,
        (SpecResolvePhase::AwaitDriverKey { .. }, SpecProbeEvent::DriverKey { .. }) => true,
        (SpecResolvePhase::AwaitOpen { .. }, SpecProbeEvent::Opened { .. }) => true,
        (SpecResolvePhase::AwaitAttributes { .. }, SpecProbeEvent::Attributes { .. }) => true,
        (SpecResolvePhase::AwaitClose { .. }, SpecProbeEvent::Closed { .. }) => true,
        _ => false,
    }
}

/// Whether a detail buffer decodes to a usable path: its payload before
/// the first NUL must be valid UTF-8.
pub open spec fn spec_detail_path_ok(data: Seq<u8>) -> bool {
    valid_utf8(spec_nul_prefix(data))
}

/// The path a detail buffer holds: its NUL-truncated payload, decoded.
pub open spec fn spec_detail_path(data: Seq<u8>) -> Seq<char> {
    decode_utf8(spec_nul_prefix(data))
}

/// Whether a class-name property query identifies the HID class: the
/// query must have succeeded and the NUL-truncated property value must
/// equal the HID class name exactly (case-sensitively).
pub open spec fn spec_class_name_matches(ok: bool, data: Seq<u8>) -> bool {
    &&& ok
    &&& valid_utf8(spec_nul_prefix(data))
    &&& decode_utf8(spec_nul_prefix(data)) == spec_hid_class_name()
}

/// The full class-binding verdict over the three queries it rests on: a
/// device-level record must exist, its class name must match, and a
/// driver key must be present (a device of the right class with no
/// driver bound does not count).
pub open spec fn spec_class_binding_verdict(
    record_exists: bool,
    name_ok: bool,
    name: Seq<u8>,
    driver_present: bool,
) -> bool {
    record_exists && spec_class_name_matches(name_ok, name) && driver_present
}

/// The resolver's transition relation: what each OS answer does to the
/// probe of one index. This is the whole protocol in one place.
pub open spec fn spec_step(phase: SpecResolvePhase, ev: SpecProbeEvent) -> SpecResolvePhase
    recommends
        spec_expects(phase, ev),
{
    match (phase, ev) {
        (SpecResolvePhase::AwaitInterface, SpecProbeEvent::Interface { exists }) => if exists {
            SpecResolvePhase::AwaitDetailSize
        } else {
            SpecResolvePhase::Done { outcome: SpecProbeOutcome::NoMoreDevices }
        },
        (
            SpecResolvePhase::AwaitDetailSize,
            SpecProbeEvent::DetailSize { os_status: _, required_size, error_code },
        ) => if required_size == 0 {
            SpecResolvePhase::Done {
                outcome: SpecProbeOutcome::Failed { error: HidError::Os { code: error_code } },
            }
        } else if required_size > MAX_DETAIL_SIZE {
            SpecResolvePhase::Done {
                outcome: SpecProbeOutcome::Failed {
                    error: HidError::DetailTooLarge { required: required_size },
                },
            }
        } else {
            SpecResolvePhase::AwaitDetail { size: required_size }
        },
        (SpecResolvePhase::AwaitDetail { .. }, SpecProbeEvent::Detail { ok, error_code, data }) =>
            if !ok {
            SpecResolvePhase::Done {
                outcome: SpecProbeOutcome::Failed { error: HidError::Os { code: error_code } },
            }
        } else if !spec_detail_path_ok(data) {
            SpecResolvePhase::Done {
                outcome: SpecProbeOutcome::Failed { error: HidError::PathNotUtf8 },
            }
        } else {
            SpecResolvePhase::AwaitDeviceRecord { path: spec_detail_path(data) }
        },
        (
            SpecResolvePhase::AwaitDeviceRecord { path },
            SpecProbeEvent::DeviceRecord { exists },
        ) => if exists {
            SpecResolvePhase::AwaitClassName { path }
        } else {
            SpecResolvePhase::Done { outcome: SpecProbeOutcome::NotMatching }
        },
        (SpecResolvePhase::AwaitClassName { path }, SpecProbeEvent::ClassName { ok, data }) => if
        spec_class_name_matches(ok, data) {
            SpecResolvePhase::AwaitDriverKey { path }
        } else {
            SpecResolvePhase::Done { outcome: SpecProbeOutcome::NotMatching }
        },
        (SpecResolvePhase::AwaitDriverKey { path }, SpecProbeEvent::DriverKey { present }) => if
        present {
            SpecResolvePhase::AwaitOpen { path }
        } else {
            SpecResolvePhase::Done { outcome: SpecProbeOutcome::NotMatching }
        },
        (SpecResolvePhase::AwaitOpen { path }, SpecProbeEvent::Opened { valid, error_code }) => if
        valid {
            SpecResolvePhase::AwaitAttributes {
                path,
                handle: DeviceHandle { is_open: true, metadata_only: true },
            }
        } else {
            SpecResolvePhase::Done {
                outcome: SpecProbeOutcome::Failed { error: HidError::Os { code: error_code } },
            }
        },
        (
            SpecResolvePhase::AwaitAttributes { path, handle },
            SpecProbeEvent::Attributes { vendor_id, product_id, release_number },
        ) => SpecResolvePhase::AwaitClose {
            info: spec_resolved_info(vendor_id, product_id, release_number, path),
            handle,
        },
        (SpecResolvePhase::AwaitClose { info, .. }, SpecProbeEvent::Closed { ok, error_code }) =>
            if ok {
            SpecResolvePhase::Done { outcome: SpecProbeOutcome::Matched { info } }
        } else {
            SpecResolvePhase::Done {
                outcome: SpecProbeOutcome::Failed { error: HidError::Os { code: error_code } },
            }
        },
        _ => phase,
    }
}

/// The OS call each phase waits on.
pub open spec fn spec_action(phase: SpecResolvePhase) -> ProbeAction {
    match phase {
        SpecResolvePhase::AwaitInterface => ProbeAction::QueryInterface,
        SpecResolvePhase::AwaitDetailSize => ProbeAction::QueryDetailSize,
        SpecResolvePhase::AwaitDetail { .. } => ProbeAction::QueryDetail,
        SpecResolvePhase::AwaitDeviceRecord { .. } => ProbeAction::QueryDeviceRecord,
        SpecResolvePhase::AwaitClassName { .. } => ProbeAction::QueryClassName,
        SpecResolvePhase::AwaitDriverKey { .. } => ProbeAction::QueryDriverKey,
        SpecResolvePhase::AwaitOpen { .. } => ProbeAction::OpenDevice,
        SpecResolvePhase::AwaitAttributes { .. } => ProbeAction::QueryAttributes,
        SpecResolvePhase::AwaitClose { .. } => ProbeAction::CloseDevice,
        SpecResolvePhase::Done { .. } => ProbeAction::Finished,
    }
}

/// Resolves what stands at one enumeration index: drives the two-phase
/// path retrieval, the class-binding check, and the metadata-only
/// attribute query, one OS answer at a time.
pub struct Resolver {
    /// The enumeration index being probed. Never changes over the
    /// probe's lifetime.
    pub index: u32,
    /// Which answer the resolver waits for next.
    pub phase: ResolvePhase,
}

impl Resolver {
    /// The resource discipline the resolver maintains: while it holds a
    /// device handle, that handle is open and metadata-only, and it
    /// holds one exactly between a successful open and the close.
    pub open spec fn wf(&self) -> bool {
        match self.phase@ {
            SpecResolvePhase::AwaitAttributes { handle, .. } => handle.is_open
                && handle.metadata_only,
            SpecResolvePhase::AwaitClose { handle, .. } => handle.is_open && handle.metadata_only,
            _ => true,
        }
    }

    /// Starts the probe of one enumeration index.
    pub fn probe(index: u32) -> (r: Resolver)
        ensures
            r.index == index,
            r.phase@ == SpecResolvePhase::AwaitInterface,
            r.wf(),
    {
        Resolver { index, phase: ResolvePhase::AwaitInterface }
    }

    /// The OS call the driving loop must perform next.
    pub fn action(&self) -> (a: ProbeAction)
        ensures
            a == spec_action(self.phase@),
    {
        match &self.phase {
            ResolvePhase::AwaitInterface => ProbeAction::QueryInterface,
            ResolvePhase::AwaitDetailSize => ProbeAction::QueryDetailSize,
            ResolvePhase::AwaitDetail { .. } => ProbeAction::QueryDetail,
            ResolvePhase::AwaitDeviceRecord { .. } => ProbeAction::QueryDeviceRecord,
            ResolvePhase::AwaitClassName { .. } => ProbeAction::QueryClassName,
            ResolvePhase::AwaitDriverKey { .. } => ProbeAction::QueryDriverKey,
            ResolvePhase::AwaitOpen { .. } => ProbeAction::OpenDevice,
            ResolvePhase::AwaitAttributes { .. } => ProbeAction::QueryAttributes,
            ResolvePhase::AwaitClose { .. } => ProbeAction::CloseDevice,
            ResolvePhase::Done { .. } => ProbeAction::Finished,
        }
    }

    /// The negotiated detail-buffer size, once phase one has reported it.
    pub fn detail_size(&self) -> (n: u32)
        requires
            self.phase@ is AwaitDetail,
        ensures
            self.phase@ matches SpecResolvePhase::AwaitDetail { size } && n == size,
    {
        match &self.phase {
            ResolvePhase::AwaitDetail { size } => *size,
            _ => vstd::pervasive::unreached(),
        }
    }

    /// The resolved device path, as the open call must receive it.
    pub fn path(&self) -> (p: &String)
        requires
            self.phase@ is AwaitOpen,
        ensures
            self.phase@ matches SpecResolvePhase::AwaitOpen { path } && p@ == path,
    {
        match &self.phase {
            ResolvePhase::AwaitOpen { path } => path,
            _ => vstd::pervasive::unreached(),
        }
    }

    /// Whether the probe has finished and holds its outcome.
    pub fn finished(&self) -> (r: bool)
        ensures
            r == (self.phase@ is Done),
    {
        match &self.phase {
            ResolvePhase::Done { .. } => true,
            _ => false,
        }
    }

    /// Hands out the outcome of a finished probe.
    pub fn into_outcome(self) -> (o: ProbeOutcome)
        requires
            self.phase@ is Done,
        ensures
            self.phase@ matches SpecResolvePhase::Done { outcome } && o@ == outcome,
    {
        match self.phase {
            ResolvePhase::Done { outcome } => outcome,
            _ => vstd::pervasive::unreached(),
        }
    }

    /// Feeds one OS answer into the probe and moves it to the next
    /// phase, exactly as the transition relation [`spec_step`] says.
    pub fn step(self, ev: ProbeEvent) -> (r: Resolver)
        requires
            self.wf(),
            spec_expects(self.phase@, ev@),
        ensures
            r.index == self.index,
            r.phase@ == spec_step(self.phase@, ev@),
            r.wf(),
    {
        let Resolver { index, phase } = self;
        let next: ResolvePhase = match (phase, ev) {
            (ResolvePhase::AwaitInterface, ProbeEvent::Interface { exists }) => if exists {
                ResolvePhase::AwaitDetailSize
            } else {
                ResolvePhase::Done { outcome: ProbeOutcome::NoMoreDevices }
            },
            (
                ResolvePhase::AwaitDetailSize,
                ProbeEvent::DetailSize { os_status: _, required_size, error_code },
            ) => if required_size == 0 {
                ResolvePhase::Done {
                    outcome: ProbeOutcome::Failed { error: HidError::Os { code: error_code } },
                }
            } else if required_size > MAX_DETAIL_SIZE {
                ResolvePhase::Done {
                    outcome: ProbeOutcome::Failed {
                        error: HidError::DetailTooLarge { required: required_size },
                    },
                }
            } else {
                ResolvePhase::AwaitDetail { size: required_size }
            },
            (ResolvePhase::AwaitDetail { .. }, ProbeEvent::Detail { ok, error_code, data }) => if
            !ok {
                ResolvePhase::Done {
                    outcome: ProbeOutcome::Failed { error: HidError::Os { code: error_code } },
                }
            } else {
                match try_bytes_to_str(data.as_slice()) {
                    Some(path) => ResolvePhase::AwaitDeviceRecord { path },
                    None => ResolvePhase::Done {
                        outcome: ProbeOutcome::Failed { error: HidError::PathNotUtf8 },
                    },
                }
            },
            (ResolvePhase::AwaitDeviceRecord { path }, ProbeEvent::DeviceRecord { exists }) => if
            exists {
                ResolvePhase::AwaitClassName { path }
            } else {
                ResolvePhase::Done { outcome: ProbeOutcome::NotMatching }
            },
            (ResolvePhase::AwaitClassName { path }, ProbeEvent::ClassName { ok, data }) => {
                if !ok {
                    ResolvePhase::Done { outcome: ProbeOutcome::NotMatching }
                } else {
                    match try_bytes_to_str(data.as_slice()) {
                        Some(name) => {
                            let expected: String = String::from_str("HIDClass");
                            if name == expected {
                                ResolvePhase::AwaitDriverKey { path }
                            } else {
                                ResolvePhase::Done { outcome: ProbeOutcome::NotMatching }
                            }
                        },
                        None => ResolvePhase::Done { outcome: ProbeOutcome::NotMatching },
                    }
                }
            },
            (ResolvePhase::AwaitDriverKey { path }, ProbeEvent::DriverKey { present }) => if
            present {
                ResolvePhase::AwaitOpen { path }
            } else {
                ResolvePhase::Done { outcome: ProbeOutcome::NotMatching }
            },
            (ResolvePhase::AwaitOpen { path }, ProbeEvent::Opened { valid, error_code }) => {
                match DeviceHandle::from_open_event(true, valid, error_code) {
                    Ok(handle) => ResolvePhase::AwaitAttributes { path, handle },
                    Err(error) => ResolvePhase::Done { outcome: ProbeOutcome::Failed { error } },
                }
            },
            (
                ResolvePhase::AwaitAttributes { path, handle },
                ProbeEvent::Attributes { vendor_id, product_id, release_number },
            ) => {
                match handle.accept_attributes(vendor_id, product_id, release_number) {
                    Ok(attrs) => {
                        let info = HIDDeviceInfo::resolved(
                            attrs.vendor_id,
                            attrs.product_id,
                            attrs.release_number,
                            path,
                        );
                        ResolvePhase::AwaitClose { info, handle }
                    },
                    Err(_) => vstd::pervasive::unreached(),
                }
            },
            (ResolvePhase::AwaitClose { info, handle }, ProbeEvent::Closed { ok, error_code }) => {
                let mut handle = handle;
                match handle.on_close(ok, error_code) {
                    Ok(_) => ResolvePhase::Done { outcome: ProbeOutcome::Matched { info } },
                    Err(error) => ResolvePhase::Done {
                        outcome: ProbeOutcome::Failed { error },
                    },
                }
            },
            (phase, _) => phase,
        };
        Resolver { index, phase: next }
    }
}

/// The class-binding check is a pure decision over the record query and
/// the two property queries: checking the same device twice yields the
/// same verdict both times, because the checker itself mutates nothing.
pub proof fn lemma_class_binding_idempotent(
    record_exists: bool,
    name_ok: bool,
    name: Seq<u8>,
    driver_present: bool,
    record_exists2: bool,
    name_ok2: bool,
    name2: Seq<u8>,
    driver_present2: bool,
)
    requires
        record_exists == record_exists2,
        name_ok == name_ok2,
        name == name2,
        driver_present == driver_present2,
    ensures
        spec_class_binding_verdict(record_exists, name_ok, name, driver_present)
            == spec_class_binding_verdict(record_exists2, name_ok2, name2, driver_present2),
{
}

/// The three class-binding steps of the resolver agree with the
/// combined decision: starting at the device-record query, the answers
/// lead to the open phase exactly when the decision holds, and to a
/// silent non-match otherwise (never to an error).
pub proof fn lemma_binding_path_follows_verdict(
    path: Seq<char>,
    record_exists: bool,
    name_ok: bool,
    name: Seq<u8>,
    driver_present: bool,
)
    ensures
        ({
            let s0 = SpecResolvePhase::AwaitDeviceRecord { path };
            let s1 = spec_step(s0, SpecProbeEvent::DeviceRecord { exists: record_exists });
            let s2 = if s1 is AwaitClassName {
                spec_step(s1, SpecProbeEvent::ClassName { ok: name_ok, data: name })
            } else {
                s1
            };
            let s3 = if s2 is AwaitDriverKey {
                spec_step(s2, SpecProbeEvent::DriverKey { present: driver_present })
            } else {
                s2
            };
            if spec_class_binding_verdict(record_exists, name_ok, name, driver_present) {
                s3 == SpecResolvePhase::AwaitOpen { path }
            } else {
                s3 == SpecResolvePhase::Done { outcome: SpecProbeOutcome::NotMatching }
            }
        }),
{
}

} // verus!
