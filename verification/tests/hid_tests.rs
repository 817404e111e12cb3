//! Tests of the HID keyboard task: down-set upkeep, the 6-key rollover
//! policy, suspend/remote-wakeup interplay, and the passive handlers.

use maghand::hid::{
    KeyboardTask, MaghandDeviceHandler, MaghandRequestHandler, OutReportResponse, ReportId,
    REPORT_SLOTS, USB_MAX_PACKET_SIZE, USB_MAX_POWER_MA, USB_POLL_MS, USB_PRODUCT_ID,
    USB_SUPPORTS_REMOTE_WAKEUP, USB_VENDOR_ID,
};
use maghand::keymap::{keycode_for, USAGE_ERROR_ROLLOVER};
use maghand::keys::{KeySignal, Layer};

fn down(keynumber: u8) -> KeySignal {
    KeySignal { toggle_on: true, keynumber }
}

fn up(keynumber: u8) -> KeySignal {
    KeySignal { toggle_on: false, keynumber }
}

fn sorted_nonzero(slots: [u8; 6]) -> Vec<u8> {
    let mut v: Vec<u8> = slots.iter().copied().filter(|c| *c != 0).collect();
    v.sort();
    v
}

#[test]
fn keydown_inserts_and_reports_the_code() {
    let mut task = KeyboardTask::new();
    let out = task.handle_toggle(down(0), false);
    assert!(!out.request_wakeup);
    assert!(!out.stale_keyup);
    let rep = out.report.expect("mapped key must produce a report");
    assert_eq!(rep.modifier, 0);
    assert_eq!(rep.reserved, 0);
    assert_eq!(rep.leds, 0);
    let q = keycode_for(0, Layer::Default).unwrap();
    assert_eq!(sorted_nonzero(rep.keycodes), vec![q]);
}

#[test]
fn keyup_removes_and_reports_the_rest() {
    let mut task = KeyboardTask::new();
    task.handle_toggle(down(0), false);
    task.handle_toggle(down(1), false);
    let out = task.handle_toggle(up(0), false);
    assert!(!out.stale_keyup);
    let rep = out.report.unwrap();
    let w = keycode_for(1, Layer::Default).unwrap();
    assert_eq!(sorted_nonzero(rep.keycodes), vec![w]);
    // The remaining slots are zero-padded.
    assert_eq!(rep.keycodes.iter().filter(|c| **c == 0).count(), 5);
}

#[test]
fn unmapped_key_is_skipped_without_a_report() {
    let mut task = KeyboardTask::new();
    let out = task.handle_toggle(down(43), false);
    assert!(out.report.is_none());
    assert!(!out.stale_keyup);
    // The down-set is untouched.
    assert!(task.down_codes_vec().is_empty());
}

#[test]
fn stale_keyup_is_noted_but_not_fatal() {
    let mut task = KeyboardTask::new();
    let out = task.handle_toggle(up(0), false);
    assert!(out.stale_keyup);
    // A report still goes out, reflecting the (empty) down-set.
    let rep = out.report.unwrap();
    assert_eq!(rep.keycodes, [0u8; 6]);
}

#[test]
fn duplicate_keydown_keeps_one_copy() {
    let mut task = KeyboardTask::new();
    task.handle_toggle(down(0), false);
    let out = task.handle_toggle(down(0), false);
    let rep = out.report.unwrap();
    let q = keycode_for(0, Layer::Default).unwrap();
    assert_eq!(sorted_nonzero(rep.keycodes), vec![q]);
}

#[test]
fn six_keys_report_exactly_their_codes() {
    let mut task = KeyboardTask::new();
    let names = [0u8, 1, 2, 3, 10, 11];
    let mut out = None;
    for n in names {
        out = Some(task.handle_toggle(down(n), false));
    }
    let rep = out.unwrap().report.unwrap();
    let mut expected: Vec<u8> =
        names.iter().map(|n| keycode_for(*n, Layer::Default).unwrap()).collect();
    expected.sort();
    assert_eq!(sorted_nonzero(rep.keycodes), expected);
}

#[test]
fn seven_keys_roll_over_to_error_codes() {
    let mut task = KeyboardTask::new();
    let names = [0u8, 1, 2, 3, 10, 11, 12];
    let mut out = None;
    for n in names {
        out = Some(task.handle_toggle(down(n), false));
    }
    let rep = out.unwrap().report.unwrap();
    assert_eq!(rep.keycodes, [USAGE_ERROR_ROLLOVER; 6]);
    // Releasing one key returns to individual codes.
    let out = task.handle_toggle(up(12), false);
    let rep = out.report.unwrap();
    let mut expected: Vec<u8> = [0u8, 1, 2, 3, 10, 11]
        .iter()
        .map(|n| keycode_for(*n, Layer::Default).unwrap())
        .collect();
    expected.sort();
    assert_eq!(sorted_nonzero(rep.keycodes), expected);
    assert_eq!(REPORT_SLOTS, 6);
}

#[test]
fn scenario_suspended_toggle_requests_wakeup_before_the_report() {
    // Device suspended, then a key toggles on: the outcome demands a remote
    // wakeup, and carries exactly one report reflecting the new down-set,
    // to be sent only after resume.
    let mut handler = MaghandDeviceHandler::new();
    handler.suspended(true);
    assert!(handler.suspended);

    let mut task = KeyboardTask::new();
    let out = task.handle_toggle(down(0), handler.suspended);
    assert!(out.request_wakeup);
    let rep = out.report.expect("exactly one report must follow the resume");
    let q = keycode_for(0, Layer::Default).unwrap();
    assert_eq!(sorted_nonzero(rep.keycodes), vec![q]);

    // After resume, further toggles no longer request wakeup.
    handler.suspended(false);
    let out2 = task.handle_toggle(up(0), handler.suspended);
    assert!(!out2.request_wakeup);
    assert_eq!(out2.report.unwrap().keycodes, [0u8; 6]);
}

#[test]
fn device_handler_tracks_lifecycle_flags() {
    let mut h = MaghandDeviceHandler::new();
    assert!(!h.configured && !h.suspended);
    h.configured(true);
    assert!(h.configured);
    h.suspended(true);
    assert!(h.suspended && h.configured);
    h.reset();
    assert!(!h.configured && h.suspended);
    h.suspended(false);
    h.configured(true);
    h.addressed(9);
    assert!(!h.configured);
    h.configured(true);
    h.enabled(true);
    assert!(!h.configured && !h.suspended);
}

#[test]
fn usb_identity_is_fixed() {
    assert_eq!(USB_VENDOR_ID, 0xc0de);
    assert_eq!(USB_PRODUCT_ID, 0x1983);
    assert_eq!(USB_MAX_POWER_MA, 500);
    assert_eq!(USB_MAX_PACKET_SIZE, 64);
    assert_eq!(USB_POLL_MS, 60);
    assert!(USB_SUPPORTS_REMOTE_WAKEUP);
}

#[test]
fn request_handler_answers_minimally() {
    let mut rh = MaghandRequestHandler {};
    assert_eq!(rh.get_report(ReportId::In(0)), None);
    assert_eq!(rh.get_report(ReportId::Feature(1)), None);
    let data = vec![1u8, 2, 3];
    assert_eq!(rh.set_report(ReportId::Out(0), &data), OutReportResponse::Accepted);
    rh.set_idle_ms(Some(ReportId::In(0)), 500);
    rh.set_idle_ms(None, 0);
    assert_eq!(rh.get_idle_ms(None), None);
    assert_eq!(rh.get_idle_ms(Some(ReportId::In(0))), None);
}
