use rmk_hid::hid::{
    CompositeReportType, EndpointError, HidError, KeyboardReport, MediaKeyboardReport, MouseReport,
    ReadError, Report, RynkHidReport, StenoReport, SystemControlReport,
};
use rmk_hid::led::{led_action, LedAction, LedIndicator};
use rmk_hid::state::{ConnectionType, UsbState};
use rmk_hid::usb::device::{DeviceAction, DeviceEvent, DeviceTask};
use rmk_hid::usb::writer::{
    finish_write, Endpoint, UsbKeyboardWriter, WriteOutcome, WriterAction, WriterEvent,
    COMPOSITE_WRITE_SIZE, KEYBOARD_WRITE_SIZE, STENO_WRITE_SIZE,
};

const MOUSE: MouseReport = MouseReport { buttons: 1, x: 300, y: -300, wheel: 120, pan: -120 };

const DISABLED: HidError = HidError::UsbEndpointError(EndpointError::Disabled);

fn keyboard(code: u8) -> Report {
    Report::KeyboardReport(KeyboardReport { modifier: 0, reserved: 0, leds: 0, keycodes: [code, 0, 0, 0, 0, 0] })
}

#[test]
fn keyboard_reports_go_out_without_a_report_id() {
    let transfer = UsbKeyboardWriter::write_report(&keyboard(4)).unwrap();
    assert_eq!(transfer.endpoint, Endpoint::Keyboard);
    assert_eq!(transfer.data, [0, 0, 4, 0, 0, 0, 0, 0]);
    assert_eq!(transfer.data.len(), KEYBOARD_WRITE_SIZE);
    assert_eq!(transfer.timeout_ms, None);
}

/// The report id and all nine bytes of a mouse report fit.
#[test]
fn mouse_reports_go_out_behind_their_id() {
    let transfer = UsbKeyboardWriter::write_report(&Report::MouseReport(MOUSE)).unwrap();
    assert_eq!(transfer.endpoint, Endpoint::Composite);
    assert_eq!(transfer.data, [2, 1, 0x2c, 0x01, 0xd4, 0xfe, 0x78, 0x00, 0x88, 0xff]);
    assert_eq!(transfer.data.len(), COMPOSITE_WRITE_SIZE);
    assert_eq!(transfer.timeout_ms, None);
}

#[test]
fn media_and_system_reports_go_out_behind_their_ids() {
    let media = Report::MediaKeyboardReport(MediaKeyboardReport { usage_id: 0x00e9 });
    let transfer = UsbKeyboardWriter::write_report(&media).unwrap();
    assert_eq!(transfer.endpoint, Endpoint::Composite);
    assert_eq!(transfer.data, [3, 0xe9, 0x00]);

    let system = Report::SystemControlReport(SystemControlReport { usage_id: 0x81 });
    let transfer = UsbKeyboardWriter::write_report(&system).unwrap();
    assert_eq!(transfer.endpoint, Endpoint::Composite);
    assert_eq!(transfer.data, [4, 0x81]);
}

#[test]
fn steno_reports_may_only_block_briefly() {
    let report = Report::StenoReport(StenoReport { keys: [0x80, 0, 0, 0, 0, 0, 0, 1] });
    let transfer = UsbKeyboardWriter::write_report(&report).unwrap();
    assert_eq!(transfer.endpoint, Endpoint::Steno);
    assert_eq!(transfer.data, [0x50, 0x80, 0, 0, 0, 0, 0, 0, 1]);
    assert_eq!(transfer.data.len(), STENO_WRITE_SIZE);
    assert_eq!(transfer.timeout_ms, Some(5));
}

#[test]
fn a_report_that_is_too_long_for_the_composite_endpoint_is_refused() {
    let result = UsbKeyboardWriter::write_composite(CompositeReportType::Mouse, &RynkHidReport::default());
    assert_eq!(result.err(), Some(HidError::ReportSerializeError));
}

/// The report id counts where there is one.
#[test]
fn the_result_of_a_write_is_the_number_of_bytes_written() {
    for (report, written) in [
        (keyboard(4), 8),
        (Report::MouseReport(MOUSE), 10),
        (Report::MediaKeyboardReport(MediaKeyboardReport { usage_id: 0x00e9 }), 3),
        (Report::SystemControlReport(SystemControlReport { usage_id: 0x81 }), 2),
        (Report::StenoReport(StenoReport { keys: [0; 8] }), 9),
    ] {
        let transfer = UsbKeyboardWriter::write_report(&report).unwrap();
        assert_eq!(transfer.data.len(), written);
        assert_eq!(finish_write(&transfer, WriteOutcome::Written), Ok(written));
    }
}

/// A report that Plover does not read in time is dropped, which is no error.
#[test]
fn a_report_that_nobody_reads_counts_as_written() {
    let report = Report::StenoReport(StenoReport { keys: [0; 8] });
    let transfer = UsbKeyboardWriter::write_report(&report).unwrap();
    assert_eq!(finish_write(&transfer, WriteOutcome::TimedOut), Ok(9));
}

#[test]
fn a_failed_write_gives_the_error_of_the_endpoint() {
    let transfer = UsbKeyboardWriter::write_report(&Report::MouseReport(MOUSE)).unwrap();
    assert_eq!(finish_write(&transfer, WriteOutcome::Failed(EndpointError::Disabled)), Err(DISABLED));
    assert_eq!(
        finish_write(&transfer, WriteOutcome::Failed(EndpointError::BufferOverflow)),
        Err(HidError::UsbEndpointError(EndpointError::BufferOverflow))
    );
}

#[test]
fn a_written_report_makes_room_for_the_next() {
    let writer = UsbKeyboardWriter::new();
    assert!(writer.pending().is_none());
    let (writer, action) = writer.advance(WriterEvent::Received(keyboard(4), UsbState::Configured));
    assert_eq!(action, WriterAction::Write);
    assert_eq!(writer.pending(), Some(&keyboard(4)));
    let (writer, action) = writer.advance(WriterEvent::Written(Ok(8)));
    assert_eq!(action, WriterAction::Receive);
    assert!(writer.pending().is_none());
}

#[test]
fn a_report_during_suspend_wakes_the_host_and_is_dropped() {
    let writer = UsbKeyboardWriter::new();
    let (writer, action) = writer.advance(WriterEvent::Received(keyboard(4), UsbState::Suspended));
    assert_eq!(action, WriterAction::WakeupAndReceive);
    assert!(writer.pending().is_none());
}

#[test]
fn a_disabled_endpoint_is_retried_once_with_the_same_report() {
    let writer = UsbKeyboardWriter::new();
    let (writer, _) = writer.advance(WriterEvent::Received(keyboard(9), UsbState::Enabled));
    let (writer, action) = writer.advance(WriterEvent::Written(Err(DISABLED)));
    assert_eq!(action, WriterAction::WakeupAndWait(500));
    assert_eq!(writer.pending(), Some(&keyboard(9)));
    let (writer, action) = writer.advance(WriterEvent::DelayElapsed);
    assert_eq!(action, WriterAction::Write);
    assert_eq!(writer.pending(), Some(&keyboard(9)));
    // It fails again and is given up.
    let (writer, action) = writer.advance(WriterEvent::Written(Err(DISABLED)));
    assert_eq!(action, WriterAction::Receive);
    assert!(writer.pending().is_none());
}

#[test]
fn other_write_errors_are_not_retried() {
    for error in [
        HidError::UsbEndpointError(EndpointError::BufferOverflow),
        HidError::ReportSerializeError,
        HidError::BleError,
        HidError::UsbReadError(ReadError::Disabled),
    ] {
        let writer = UsbKeyboardWriter::new();
        let (writer, _) = writer.advance(WriterEvent::Received(keyboard(4), UsbState::Configured));
        let (writer, action) = writer.advance(WriterEvent::Written(Err(error)));
        assert_eq!(action, WriterAction::Receive);
        assert!(writer.pending().is_none());
    }
}

#[test]
fn the_device_task_follows_suspend_and_resume() {
    let mut task = DeviceTask::new();
    assert_eq!(task.action(), DeviceAction::RunUntilSuspend);
    task.advance(DeviceEvent::BusSuspended);
    assert_eq!(task.action(), DeviceAction::WaitForResumeOrWakeup);
    task.advance(DeviceEvent::HostResumed);
    assert_eq!(task.action(), DeviceAction::RunUntilSuspend);
}

#[test]
fn a_wakeup_request_is_sent_whether_or_not_the_last_one_succeeded() {
    let mut task = DeviceTask::new();
    for success in [false, true] {
        task.advance(DeviceEvent::BusSuspended);
        task.advance(DeviceEvent::WakeupRequested);
        assert_eq!(task.action(), DeviceAction::RemoteWakeup);
        task.advance(DeviceEvent::WakeupSent { success });
        assert_eq!(task.action(), DeviceAction::RunUntilSuspend);
    }
}

#[test]
fn led_reports_are_published_for_the_active_transport_only() {
    let leds = LedIndicator::from_bits(0b00010);
    assert_eq!(leds.into_bits(), 2);
    let usb = ConnectionType::Usb;
    assert_eq!(led_action(Ok(leds), usb, Some(usb)), LedAction::Publish(leds));
    assert_eq!(led_action(Ok(leds), usb, Some(ConnectionType::Ble)), LedAction::Ignore);
    assert_eq!(led_action(Ok(leds), usb, None), LedAction::Ignore);
    assert_eq!(led_action(Ok(leds), ConnectionType::Ble, Some(ConnectionType::Ble)), LedAction::Publish(leds));
}

#[test]
fn a_failed_led_read_pauses_for_a_second() {
    let failed = Err(HidError::UsbReadError(ReadError::Sync { start: 0, end: 1 }));
    assert_eq!(led_action(failed, ConnectionType::Usb, Some(ConnectionType::Usb)), LedAction::Pause(1000));
    let overflow = Err(HidError::UsbReadError(ReadError::BufferOverflow));
    assert_eq!(led_action(overflow, ConnectionType::Ble, None), LedAction::Pause(1000));
}
