use rmk_hid::hid::{
    BleCompositeReport, CompositeReport, CompositeReportType, KeyboardReport, MediaKeyboardReport,
    MouseReport, Report, RynkHidReport, StenoReport, SystemControlReport, ViaReport,
    PLOVER_HID_REPORT_ID, RYNK_HID_REPORT_SIZE,
};
use rmk_hid::hires::RESOLUTION_MULTIPLIER_REPORT_ID;
use rmk_hid::wire::{i16_le_bytes, i32_le_bytes, AsInputReport, ReportOverflow};

/// Serializes into a buffer that is one byte longer than the report.
fn wire<R: AsInputReport>(report: &R, len: usize) -> Vec<u8> {
    let mut buf = vec![0xaa; len + 1];
    assert_eq!(report.serialize(&mut buf), Ok(len));
    assert_eq!(buf.pop(), Some(0xaa), "a byte behind the report was written");

    let mut exact = vec![0xaa; len];
    assert_eq!(report.serialize(&mut exact), Ok(len));
    assert_eq!(exact, buf);

    let mut short = vec![0xaa; len - 1];
    assert_eq!(report.serialize(&mut short), Err(ReportOverflow));
    assert_eq!(short, vec![0xaa; len - 1], "a refused buffer was written");
    buf
}

#[test]
fn keyboard_report_is_the_boot_layout() {
    let report = KeyboardReport {
        modifier: 0x02,
        reserved: 0,
        leds: 0xff,
        keycodes: [4, 5, 6, 7, 8, 9],
    };
    assert_eq!(wire(&report, 8), [2, 0, 4, 5, 6, 7, 8, 9]);
    assert_eq!(wire(&Report::KeyboardReport(report), 8), [2, 0, 4, 5, 6, 7, 8, 9]);
}

#[test]
fn mouse_report_keeps_the_extremes() {
    let report = MouseReport {
        buttons: 0xff,
        x: i16::MIN,
        y: i16::MAX,
        wheel: -120,
        pan: 120,
    };
    let bytes = [0xff, 0x00, 0x80, 0xff, 0x7f, 0x88, 0xff, 0x78, 0x00];
    assert_eq!(wire(&report, 9), bytes);
    assert_eq!(wire(&Report::MouseReport(report), 9), bytes);
}

#[test]
fn different_mouse_reports_differ_on_the_wire() {
    let a = MouseReport { buttons: 1, x: 1, y: 256, wheel: 0, pan: 0 };
    let b = MouseReport { buttons: 1, x: 256, y: 1, wheel: 0, pan: 0 };
    assert_ne!(wire(&a, 9), wire(&b, 9));
}

#[test]
fn media_report_is_little_endian() {
    let report = MediaKeyboardReport { usage_id: 0x01cd };
    assert_eq!(wire(&report, 2), [0xcd, 0x01]);
    assert_eq!(wire(&Report::MediaKeyboardReport(report), 2), [0xcd, 0x01]);
}

#[test]
fn system_report_is_one_byte() {
    let report = SystemControlReport { usage_id: 0x82 };
    assert_eq!(wire(&report, 1), [0x82]);
    assert_eq!(wire(&Report::SystemControlReport(report), 1), [0x82]);
}

#[test]
fn steno_report_starts_with_the_plover_id() {
    let report = StenoReport { keys: [1, 2, 3, 4, 5, 6, 7, 8] };
    let bytes = [PLOVER_HID_REPORT_ID, 1, 2, 3, 4, 5, 6, 7, 8];
    assert_eq!(PLOVER_HID_REPORT_ID, 0x50);
    assert_eq!(wire(&report, 9), bytes);
    assert_eq!(wire(&Report::StenoReport(report), 9), bytes);
}

#[test]
fn vendor_reports_carry_their_input_payload() {
    let mut via = ViaReport::default();
    let mut rynk = RynkHidReport::default();
    for i in 0..32 {
        via.input_data[i] = i as u8;
        rynk.input_data[i] = 0xff - i as u8;
        via.output_data[i] = 0x55;
        rynk.output_data[i] = 0x55;
    }
    assert_eq!(wire(&via, 32), via.input_data);
    assert_eq!(wire(&rynk, RYNK_HID_REPORT_SIZE), rynk.input_data);
}

#[test]
fn reports_default_to_nothing_pressed() {
    assert_eq!(
        KeyboardReport::default(),
        KeyboardReport { modifier: 0, reserved: 0, leds: 0, keycodes: [0; 6] }
    );
    assert_eq!(MouseReport::default(), MouseReport { buttons: 0, x: 0, y: 0, wheel: 0, pan: 0 });
    assert_eq!(StenoReport::default(), StenoReport { keys: [0; 8] });
    assert_eq!(ViaReport::default(), ViaReport { input_data: [0; 32], output_data: [0; 32] });
    assert_eq!(CompositeReport::default().media_usage_id, 0);
    assert_eq!(CompositeReport::default().wheel_multiplier, 0);
    assert_eq!(BleCompositeReport::default().keycodes, [0; 6]);
    assert_eq!(CompositeReportType::default(), CompositeReportType::NoReport);
}

#[test]
fn report_ids_are_distinct() {
    let ids = [
        CompositeReportType::NoReport.id(),
        CompositeReportType::Keyboard.id(),
        CompositeReportType::Mouse.id(),
        CompositeReportType::Media.id(),
        CompositeReportType::System.id(),
    ];
    assert_eq!(ids, [0, 1, 2, 3, 4]);
    assert!(!ids.contains(&RESOLUTION_MULTIPLIER_REPORT_ID));
    assert!(CompositeReportType::Keyboard < CompositeReportType::Mouse);
}

#[test]
fn little_endian_bytes_agree_with_std() {
    for v in [0, 1, -1, 255, 256, -256, i16::MIN, i16::MAX] {
        let (a, b) = i16_le_bytes(v);
        assert_eq!([a, b], v.to_le_bytes());
    }
    for v in [0, 1, -1, 0xff00, -32767, 32767, i32::MIN, i32::MAX] {
        let (a, b, c, d) = i32_le_bytes(v);
        assert_eq!([a, b, c, d], v.to_le_bytes());
    }
}
