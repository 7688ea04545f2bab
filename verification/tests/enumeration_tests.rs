use hid_rs::device::DeviceHandle;
use hid_rs::enumerate::{hid_enumerate_all, HIDDeviceInfoIter, IterPhase};
use hid_rs::error::HidError;
use hid_rs::info::HIDDeviceInfo;
use hid_rs::resolve::{ProbeAction, ProbeEvent, ProbeOutcome, Resolver};

fn path_bytes() -> Vec<u8> {
    let mut data = b"\\\\?\\hid#vid_054c&pid_03d5&col02#8&2de".to_vec();
    data.push(0);
    data
}

/// Drives one probe through the given OS answers and returns its outcome.
fn run_probe(index: u32, events: Vec<ProbeEvent>) -> ProbeOutcome {
    let mut resolver = Resolver::probe(index);
    for ev in events {
        assert!(!resolver.finished());
        resolver = resolver.step(ev);
    }
    assert!(resolver.finished());
    assert!(matches!(resolver.action(), ProbeAction::Finished));
    resolver.into_outcome()
}

#[test]
fn acquisition_failure_silently_empties_the_scan() {
    // The enumeration handle cannot be acquired: the very first step
    // ends the sequence without an error, and it stays ended.
    let mut it = hid_enumerate_all();
    assert_eq!(it.index, 0);
    assert!(it.needs_handle());
    it.on_enumeration_handle(false);
    assert!(it.exhausted());
    assert!(!it.active());
    assert!(!it.needs_handle());
    assert_eq!(it.phase, IterPhase::Ended { handle_held: false });
    assert!(!it.release());
}

#[test]
fn skipping_a_non_matching_device_advances_cursor_by_one() {
    let mut it = HIDDeviceInfoIter { index: 7, phase: IterPhase::Ready };
    let emitted = it.on_probe(ProbeOutcome::NotMatching);
    assert!(emitted.is_none());
    assert_eq!(it.index, 8);
    assert!(it.active());
}

#[test]
fn a_match_emits_and_lands_one_past_the_matched_index() {
    let mut it = HIDDeviceInfoIter { index: 2, phase: IterPhase::Ready };
    let info = HIDDeviceInfo::resolved(0x054c, 0x03d5, 0x0100, "p".to_string());
    let emitted = it.on_probe(ProbeOutcome::Matched { info });
    let got = emitted.unwrap().unwrap();
    assert_eq!(got.vendor_id, 0x054c);
    assert_eq!(it.index, 3);
    assert!(it.active());
}

#[test]
fn end_of_interfaces_ends_the_scan_holding_the_handle() {
    let mut it = HIDDeviceInfoIter { index: 4, phase: IterPhase::Ready };
    let emitted = it.on_probe(ProbeOutcome::NoMoreDevices);
    assert!(emitted.is_none());
    assert_eq!(it.index, 4);
    assert!(it.exhausted());
    assert_eq!(it.phase, IterPhase::Ended { handle_held: true });
    assert!(it.release());
    assert!(!it.release());
}

#[test]
fn release_of_an_active_scan_frees_the_handle() {
    let mut it = hid_enumerate_all();
    it.on_enumeration_handle(true);
    assert!(it.active());
    assert!(it.release());
    assert!(it.exhausted());
}

#[test]
fn device_without_class_name_is_not_matching_and_cursor_becomes_four() {
    // A device exists at index 3 but its class-name property query
    // fails: the probe reports "not matching" without an error.
    let outcome = run_probe(
        3,
        vec![
            ProbeEvent::Interface { exists: true },
            ProbeEvent::DetailSize { os_status: false, required_size: 42, error_code: 0 },
            ProbeEvent::Detail { ok: true, error_code: 0, data: path_bytes() },
            ProbeEvent::DeviceRecord { exists: true },
            ProbeEvent::ClassName { ok: false, data: Vec::new() },
        ],
    );
    assert!(matches!(outcome, ProbeOutcome::NotMatching));
    let mut it = HIDDeviceInfoIter { index: 3, phase: IterPhase::Ready };
    let emitted = it.on_probe(outcome);
    assert!(emitted.is_none());
    assert_eq!(it.index, 4);
}

#[test]
fn open_failure_on_a_matching_device_emits_an_error_and_cursor_becomes_six() {
    // The device at index 5 matches the class and has the HID class
    // bound, but the open call hands back an invalid handle.
    let mut class_name = b"HIDClass".to_vec();
    class_name.push(0);
    let outcome = run_probe(
        5,
        vec![
            ProbeEvent::Interface { exists: true },
            ProbeEvent::DetailSize { os_status: false, required_size: 42, error_code: 0 },
            ProbeEvent::Detail { ok: true, error_code: 0, data: path_bytes() },
            ProbeEvent::DeviceRecord { exists: true },
            ProbeEvent::ClassName { ok: true, data: class_name },
            ProbeEvent::DriverKey { present: true },
            ProbeEvent::Opened { valid: false, error_code: 5 },
        ],
    );
    assert!(matches!(
        outcome,
        ProbeOutcome::Failed { error: HidError::Os { code: 5 } }
    ));
    let mut it = HIDDeviceInfoIter { index: 5, phase: IterPhase::Ready };
    let emitted = it.on_probe(outcome);
    assert_eq!(emitted.unwrap().unwrap_err(), HidError::Os { code: 5 });
    assert_eq!(it.index, 6);
}

#[test]
fn full_probe_of_a_matching_device_resolves_its_record() {
    let mut class_name = b"HIDClass".to_vec();
    class_name.push(0);
    let outcome = run_probe(
        0,
        vec![
            ProbeEvent::Interface { exists: true },
            ProbeEvent::DetailSize { os_status: false, required_size: 42, error_code: 0 },
            ProbeEvent::Detail { ok: true, error_code: 0, data: path_bytes() },
            ProbeEvent::DeviceRecord { exists: true },
            ProbeEvent::ClassName { ok: true, data: class_name },
            ProbeEvent::DriverKey { present: true },
            ProbeEvent::Opened { valid: true, error_code: 0 },
            ProbeEvent::Attributes { vendor_id: 0x054c, product_id: 0x03d5, release_number: 0x100 },
            ProbeEvent::Closed { ok: true, error_code: 0 },
        ],
    );
    match outcome {
        ProbeOutcome::Matched { info } => {
            assert_eq!(info.vendor_id, 0x054c);
            assert_eq!(info.product_id, 0x03d5);
            assert_eq!(info.release_number, 0x100);
            assert_eq!(info.path, "\\\\?\\hid#vid_054c&pid_03d5&col02#8&2de");
            assert_eq!(info.interface_number, 0);
            assert_eq!(info.class, "");
            assert_eq!(info.driver_name, "");
            assert_eq!(info.serial_number, "");
        }
        _ => panic!("expected a match"),
    }
}

#[test]
fn class_binding_check_is_idempotent_on_the_same_inputs() {
    // Probing the same unmatched device twice, with the same OS
    // answers, yields the same verdict both times: the checker holds
    // no hidden state.
    let events = || {
        vec![
            ProbeEvent::Interface { exists: true },
            ProbeEvent::DetailSize { os_status: false, required_size: 42, error_code: 0 },
            ProbeEvent::Detail { ok: true, error_code: 0, data: path_bytes() },
            ProbeEvent::DeviceRecord { exists: true },
            ProbeEvent::ClassName { ok: true, data: b"Mouse\0".to_vec() },
        ]
    };
    let first = run_probe(9, events());
    let second = run_probe(9, events());
    assert!(matches!(first, ProbeOutcome::NotMatching));
    assert!(matches!(second, ProbeOutcome::NotMatching));
}

#[test]
fn wrong_class_name_is_not_matching() {
    let outcome = run_probe(
        0,
        vec![
            ProbeEvent::Interface { exists: true },
            ProbeEvent::DetailSize { os_status: false, required_size: 42, error_code: 0 },
            ProbeEvent::Detail { ok: true, error_code: 0, data: path_bytes() },
            ProbeEvent::DeviceRecord { exists: true },
            ProbeEvent::ClassName { ok: true, data: b"hidclass\0".to_vec() },
        ],
    );
    // The comparison is case-sensitive.
    assert!(matches!(outcome, ProbeOutcome::NotMatching));
}

#[test]
fn class_without_bound_driver_is_not_matching() {
    let mut class_name = b"HIDClass".to_vec();
    class_name.push(0);
    let outcome = run_probe(
        0,
        vec![
            ProbeEvent::Interface { exists: true },
            ProbeEvent::DetailSize { os_status: false, required_size: 42, error_code: 0 },
            ProbeEvent::Detail { ok: true, error_code: 0, data: path_bytes() },
            ProbeEvent::DeviceRecord { exists: true },
            ProbeEvent::ClassName { ok: true, data: class_name },
            ProbeEvent::DriverKey { present: false },
        ],
    );
    assert!(matches!(outcome, ProbeOutcome::NotMatching));
}

#[test]
fn no_interface_at_index_ends_the_whole_scan() {
    let outcome = run_probe(11, vec![ProbeEvent::Interface { exists: false }]);
    assert!(matches!(outcome, ProbeOutcome::NoMoreDevices));
}

#[test]
fn phase_one_size_counts_even_when_its_status_reports_failure() {
    // The documented quirk of the detail call: the sizing call always
    // reports failure, yet a positive required size means phase one
    // succeeded. A reported success with the same size behaves
    // identically.
    let mut with_failure_status = Resolver::probe(0);
    with_failure_status = with_failure_status.step(ProbeEvent::Interface { exists: true });
    with_failure_status = with_failure_status.step(ProbeEvent::DetailSize {
        os_status: false,
        required_size: 64,
        error_code: 122,
    });
    assert!(matches!(with_failure_status.action(), ProbeAction::QueryDetail));
    assert_eq!(with_failure_status.detail_size(), 64);

    let mut with_success_status = Resolver::probe(0);
    with_success_status = with_success_status.step(ProbeEvent::Interface { exists: true });
    with_success_status = with_success_status.step(ProbeEvent::DetailSize {
        os_status: true,
        required_size: 64,
        error_code: 0,
    });
    assert!(matches!(with_success_status.action(), ProbeAction::QueryDetail));
    assert_eq!(with_success_status.detail_size(), 64);
}

#[test]
fn zero_required_size_fails_the_device_with_the_os_error() {
    let outcome = run_probe(
        0,
        vec![
            ProbeEvent::Interface { exists: true },
            ProbeEvent::DetailSize { os_status: false, required_size: 0, error_code: 122 },
        ],
    );
    assert!(matches!(
        outcome,
        ProbeOutcome::Failed { error: HidError::Os { code: 122 } }
    ));
}

#[test]
fn oversized_detail_requirement_is_an_explicit_error() {
    let outcome = run_probe(
        0,
        vec![
            ProbeEvent::Interface { exists: true },
            ProbeEvent::DetailSize { os_status: false, required_size: 100_000, error_code: 0 },
        ],
    );
    assert!(matches!(
        outcome,
        ProbeOutcome::Failed { error: HidError::DetailTooLarge { required: 100_000 } }
    ));
}

#[test]
fn non_utf8_path_is_a_per_device_error() {
    let outcome = run_probe(
        0,
        vec![
            ProbeEvent::Interface { exists: true },
            ProbeEvent::DetailSize { os_status: false, required_size: 4, error_code: 0 },
            ProbeEvent::Detail { ok: true, error_code: 0, data: vec![0xff, 0xfe, 0] },
        ],
    );
    assert!(matches!(
        outcome,
        ProbeOutcome::Failed { error: HidError::PathNotUtf8 }
    ));
}

#[test]
fn failed_detail_retrieval_is_a_per_device_error() {
    let outcome = run_probe(
        0,
        vec![
            ProbeEvent::Interface { exists: true },
            ProbeEvent::DetailSize { os_status: false, required_size: 4, error_code: 0 },
            ProbeEvent::Detail { ok: false, error_code: 31, data: Vec::new() },
        ],
    );
    assert!(matches!(
        outcome,
        ProbeOutcome::Failed { error: HidError::Os { code: 31 } }
    ));
}

#[test]
fn close_failure_after_a_match_surfaces_the_os_error() {
    let mut class_name = b"HIDClass".to_vec();
    class_name.push(0);
    let outcome = run_probe(
        0,
        vec![
            ProbeEvent::Interface { exists: true },
            ProbeEvent::DetailSize { os_status: false, required_size: 42, error_code: 0 },
            ProbeEvent::Detail { ok: true, error_code: 0, data: path_bytes() },
            ProbeEvent::DeviceRecord { exists: true },
            ProbeEvent::ClassName { ok: true, data: class_name },
            ProbeEvent::DriverKey { present: true },
            ProbeEvent::Opened { valid: true, error_code: 0 },
            ProbeEvent::Attributes { vendor_id: 1, product_id: 2, release_number: 3 },
            ProbeEvent::Closed { ok: false, error_code: 6 },
        ],
    );
    assert!(matches!(
        outcome,
        ProbeOutcome::Failed { error: HidError::Os { code: 6 } }
    ));
}

#[test]
fn closed_handle_refuses_attribute_queries() {
    // A metadata-only handle that went through its close can never
    // accept attributes again.
    let mut handle = DeviceHandle::from_open_event(true, true, 0).unwrap();
    assert!(handle.is_open);
    assert!(handle.metadata_only);
    assert_eq!(handle.accept_attributes(1, 2, 3).unwrap().vendor_id, 1);
    handle.on_close(true, 0).unwrap();
    assert!(!handle.is_open);
    assert_eq!(
        handle.accept_attributes(1, 2, 3).unwrap_err(),
        HidError::HandleClosed
    );
}

#[test]
fn invalid_open_reports_the_os_error() {
    assert_eq!(
        DeviceHandle::from_open_event(true, false, 2).unwrap_err(),
        HidError::Os { code: 2 }
    );
}
