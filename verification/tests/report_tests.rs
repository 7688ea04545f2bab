use hid_rs::device::{DeviceHandle, HIDDevice};
use hid_rs::error::HidError;
use hid_rs::report::{begin_feature_report, FxPhase, IssueEvent, WaitEvent};

fn open_device() -> HIDDevice {
    HIDDevice { handle: DeviceHandle::from_open_event(false, true, 0).unwrap() }
}

#[test]
fn empty_buffer_fails_before_any_os_call() {
    // No transfer can succeed without at least the report ID byte.
    let device = open_device();
    assert_eq!(
        begin_feature_report(&device, 0).unwrap_err(),
        HidError::EmptyBuffer
    );
}

#[test]
fn closed_handle_cannot_start_an_exchange() {
    let mut device = open_device();
    device.handle.on_close(true, 0).unwrap();
    assert_eq!(
        begin_feature_report(&device, 21).unwrap_err(),
        HidError::HandleClosed
    );
}

#[test]
fn immediate_completion_skips_the_wait_path() {
    // The issue call completes at once: the OS-reported count comes
    // back directly and the wait path is never entered.
    let device = open_device();
    let mut fx = begin_feature_report(&device, 21).unwrap();
    assert!(!fx.must_wait());
    let result = fx.on_issue(IssueEvent::Succeeded { bytes: 16 });
    assert_eq!(result, Some(Ok(16)));
    assert!(!fx.must_wait());
    assert_eq!(fx.phase, FxPhase::Completed);
}

#[test]
fn pending_issue_takes_the_wait_path_to_success() {
    let device = open_device();
    let mut fx = begin_feature_report(&device, 21).unwrap();
    let result = fx.on_issue(IssueEvent::Pending);
    assert_eq!(result, None);
    assert!(fx.must_wait());
    assert_eq!(fx.on_wait(WaitEvent::Succeeded { bytes: 16 }), Ok(16));
    assert_eq!(fx.phase, FxPhase::Completed);
}

#[test]
fn pending_issue_surfaces_a_wait_failure() {
    let device = open_device();
    let mut fx = begin_feature_report(&device, 21).unwrap();
    assert_eq!(fx.on_issue(IssueEvent::Pending), None);
    assert!(fx.must_wait());
    assert_eq!(
        fx.on_wait(WaitEvent::Failed { code: 995 }),
        Err(HidError::Os { code: 995 })
    );
}

#[test]
fn failed_issue_surfaces_the_os_error_without_waiting() {
    let device = open_device();
    let mut fx = begin_feature_report(&device, 21).unwrap();
    let result = fx.on_issue(IssueEvent::Failed { code: 1 });
    assert_eq!(result, Some(Err(HidError::Os { code: 1 })));
    assert!(!fx.must_wait());
}
