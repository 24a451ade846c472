use rmk_hid::hires::{raw_multipliers, set_raw_multipliers, Multipliers};
use rmk_hid::state::{usb_ready, DeviceState, UsbState};
use rmk_hid::usb::handler::{
    Direction, HidProtocolMode, InResponse, OutResponse, Recipient, ReportId, Request, RequestType,
    UsbCompositeRequestHandler, UsbDeviceHandler, UsbRequestHandler, HID_REQ_GET_PROTOCOL,
    HID_REQ_SET_PROTOCOL, PRIMARY_KEYBOARD_INTERFACE,
};

/// Builds a class request aimed at `iface`.
fn class_request(request: u8, value: u16, iface: u16, length: u16) -> Request {
    Request {
        direction: Direction::Out,
        request_type: RequestType::Class,
        recipient: Recipient::Interface,
        request,
        value,
        index: iface,
        length,
    }
}

/// One test for the whole protocol lifecycle: the mode only means anything as a sequence of host
/// requests.
#[test]
fn the_keyboard_interface_honours_set_protocol_and_bus_reset() {
    let mut state = DeviceState::new();
    let mut handler = UsbDeviceHandler::new(Some(PRIMARY_KEYBOARD_INTERFACE));
    let mut buf = [0u8; 1];

    let get = class_request(HID_REQ_GET_PROTOCOL, 0, PRIMARY_KEYBOARD_INTERFACE as u16, 1);
    assert_eq!(handler.control_in(get, &mut buf), Some(InResponse::Accepted(&[1][..])));

    // A BIOS or KVM switch selects the boot protocol before it will use the keyboard; rejecting it
    // strands a host that trusts the boot subclass.
    let set_boot = class_request(HID_REQ_SET_PROTOCOL, 0, PRIMARY_KEYBOARD_INTERFACE as u16, 0);
    assert_eq!(handler.control_out(set_boot, &[]), Some(OutResponse::Accepted));
    assert_eq!(handler.control_in(get, &mut buf), Some(InResponse::Accepted(&[0][..])));

    // "The Boot Keyboard shall, upon reset, return to the non-boot protocol" (HID 1.11 Appendix
    // F.3).
    handler.reset(&mut state);
    assert_eq!(handler.control_in(get, &mut buf), Some(InResponse::Accepted(&[1][..])));

    // A HID class driver normally selects the report protocol explicitly once it has read the
    // report descriptor.
    assert_eq!(handler.control_out(set_boot, &[]), Some(OutResponse::Accepted));
    let set_report = class_request(HID_REQ_SET_PROTOCOL, 1, PRIMARY_KEYBOARD_INTERFACE as u16, 0);
    assert_eq!(handler.control_out(set_report, &[]), Some(OutResponse::Accepted));
    assert_eq!(handler.control_in(get, &mut buf), Some(InResponse::Accepted(&[1][..])));
}

#[test]
fn requests_for_other_interfaces_fall_through() {
    let mut handler = UsbDeviceHandler::new(Some(PRIMARY_KEYBOARD_INTERFACE));
    let mut buf = [0u8; 1];

    assert_eq!(
        handler.control_out(class_request(HID_REQ_SET_PROTOCOL, 0, 1, 0), &[]),
        None
    );
    assert_eq!(
        handler.control_in(class_request(HID_REQ_GET_PROTOCOL, 0, 1, 1), &mut buf),
        None
    );
}

/// A peripheral has no keyboard, and its interface 0 is the DFU one, whose GETSTATUS shares
/// GET_PROTOCOL's class request code.
#[test]
fn a_build_without_a_keyboard_answers_no_protocol_requests() {
    let mut handler = UsbDeviceHandler::new(None);
    let mut buf = [0u8; 1];

    assert_eq!(
        handler.control_out(class_request(HID_REQ_SET_PROTOCOL, 0, 0, 0), &[]),
        None
    );
    assert_eq!(
        handler.control_in(class_request(HID_REQ_GET_PROTOCOL, 0, 0, 1), &mut buf),
        None
    );
}

#[test]
fn malformed_protocol_requests_are_rejected() {
    let mut handler = UsbDeviceHandler::new(Some(PRIMARY_KEYBOARD_INTERFACE));
    let mut buf = [0u8; 1];
    let iface = PRIMARY_KEYBOARD_INTERFACE as u16;

    // wValue outside HID 1.11's 0 (Boot) / 1 (Report).
    assert_eq!(
        handler.control_out(class_request(HID_REQ_SET_PROTOCOL, 2, iface, 0), &[]),
        Some(OutResponse::Rejected)
    );
    // SET_PROTOCOL carries no data ("wLength 0 (zero)", HID 1.11 7.2.6). Rejected rather than None:
    // falling through would let the HID class accept it, since that path only looks at wValue.
    assert_eq!(
        handler.control_out(class_request(HID_REQ_SET_PROTOCOL, 1, iface, 1), &[0]),
        Some(OutResponse::Rejected)
    );
    // GET_PROTOCOL is defined with wValue 0 and wLength 1.
    assert_eq!(
        handler.control_in(class_request(HID_REQ_GET_PROTOCOL, 1, iface, 1), &mut buf),
        Some(InResponse::Rejected)
    );
    assert_eq!(
        handler.control_in(class_request(HID_REQ_GET_PROTOCOL, 0, iface, 2), &mut buf),
        Some(InResponse::Rejected)
    );
}

/// A charge-only cable / wall charger enables the device (VBUS present) but never enumerates it;
/// the bus-idle suspend that follows must not publish Suspended, otherwise `usb_ready()` would
/// route reports to endpoints that were never configured while a BLE host could have received
/// them.
#[test]
fn suspend_without_enumeration_stays_enabled() {
    let mut state = DeviceState::new();
    let mut handler = UsbDeviceHandler::new(Some(PRIMARY_KEYBOARD_INTERFACE));
    handler.enabled(true, &mut state);
    assert_eq!(state.current_usb_state(), UsbState::Enabled);

    handler.suspended(true, &mut state);
    assert_eq!(state.current_usb_state(), UsbState::Enabled);
    assert!(!usb_ready(state.current_usb_state()));

    // Spurious resume (bus activity without enumeration) changes nothing.
    handler.suspended(false, &mut state);
    assert_eq!(state.current_usb_state(), UsbState::Enabled);

    // A host showing up later still enumerates normally.
    handler.configured(true, &mut state);
    assert_eq!(state.current_usb_state(), UsbState::Configured);
}

/// A genuinely suspended (previously enumerated) host keeps the Suspended state so it stays
/// routable for remote wakeup, and resume restores Configured.
#[test]
fn suspend_after_configured_publishes_suspended_and_resume_restores() {
    let mut state = DeviceState::new();
    let mut handler = UsbDeviceHandler::new(Some(PRIMARY_KEYBOARD_INTERFACE));
    handler.enabled(true, &mut state);
    handler.configured(true, &mut state);

    handler.suspended(true, &mut state);
    assert_eq!(state.current_usb_state(), UsbState::Suspended);

    handler.suspended(false, &mut state);
    assert_eq!(state.current_usb_state(), UsbState::Configured);
}

/// A stray duplicate `suspended(true)` while already Suspended must not clobber the pre-suspend
/// snapshot that resume restores.
#[test]
fn duplicate_suspend_preserves_pre_suspend_state() {
    let mut state = DeviceState::new();
    let mut handler = UsbDeviceHandler::new(Some(PRIMARY_KEYBOARD_INTERFACE));
    handler.enabled(true, &mut state);
    handler.configured(true, &mut state);

    handler.suspended(true, &mut state);
    handler.suspended(true, &mut state);
    assert_eq!(state.current_usb_state(), UsbState::Suspended);

    handler.suspended(false, &mut state);
    assert_eq!(state.current_usb_state(), UsbState::Configured);
}

/// Out-of-order resume while not suspended must not overwrite the live state.
#[test]
fn resume_without_suspend_is_a_no_op() {
    let mut state = DeviceState::new();
    let mut handler = UsbDeviceHandler::new(Some(PRIMARY_KEYBOARD_INTERFACE));
    state.set_usb_state(UsbState::Configured);

    handler.suspended(false, &mut state);
    assert_eq!(state.current_usb_state(), UsbState::Configured);
}

#[test]
fn other_recipients_and_request_types_fall_through() {
    let mut handler = UsbDeviceHandler::new(Some(3));
    let boot = class_request(HID_REQ_SET_PROTOCOL, 0, 3, 0);
    for req in [
        Request { recipient: Recipient::Device, ..boot },
        Request { recipient: Recipient::Endpoint, ..boot },
        Request { request_type: RequestType::Vendor, ..boot },
        Request { request_type: RequestType::Standard, ..boot },
        Request { request: HID_REQ_GET_PROTOCOL, ..boot },
        Request { index: 3 + 256, ..boot },
    ] {
        assert!(req == Request { request: HID_REQ_GET_PROTOCOL, ..boot } || !handler.targets_boot_keyboard(&req));
        assert_eq!(handler.control_out(req, &[]), None);
    }
    assert_eq!(handler.protocol, HidProtocolMode::Report);
    assert!(handler.targets_boot_keyboard(&boot));
    assert_eq!(handler.control_out(boot, &[]), Some(OutResponse::Accepted));
    assert_eq!(handler.protocol, HidProtocolMode::Boot);
}

#[test]
fn get_protocol_needs_room_for_its_answer() {
    let mut handler = UsbDeviceHandler::new(Some(PRIMARY_KEYBOARD_INTERFACE));
    let get = class_request(HID_REQ_GET_PROTOCOL, 0, PRIMARY_KEYBOARD_INTERFACE as u16, 1);
    let mut none = [0u8; 0];
    assert_eq!(handler.control_in(get, &mut none), Some(InResponse::Rejected));
    let mut buf = [0xaau8; 3];
    assert_eq!(handler.control_in(get, &mut buf), Some(InResponse::Accepted(&[1][..])));
    assert_eq!(buf, [1, 0xaa, 0xaa]);
}

#[test]
fn a_rejected_protocol_request_keeps_the_selection() {
    let mut handler = UsbDeviceHandler::new(Some(0));
    assert_eq!(
        handler.control_out(class_request(HID_REQ_SET_PROTOCOL, 0, 0, 0), &[]),
        Some(OutResponse::Accepted)
    );
    assert_eq!(
        handler.control_out(class_request(HID_REQ_SET_PROTOCOL, 7, 0, 0), &[]),
        Some(OutResponse::Rejected)
    );
    assert_eq!(handler.protocol.code(), 0);
    assert_eq!(HidProtocolMode::Report.code(), 1);
}

#[test]
fn deconfiguration_and_disable_publish_their_states() {
    let mut state = DeviceState::new();
    assert_eq!(state.current_usb_state(), UsbState::Disabled);
    let mut handler = UsbDeviceHandler::new(None);
    handler.enabled(true, &mut state);
    handler.configured(true, &mut state);
    handler.configured(false, &mut state);
    assert_eq!(state.current_usb_state(), UsbState::Enabled);
    handler.enabled(false, &mut state);
    assert_eq!(state.current_usb_state(), UsbState::Disabled);
}

/// Reset, deconfiguration and disable each drop the negotiation; enabling, configuring and
/// suspending keep it.
#[test]
fn the_end_of_a_connection_drops_the_scroll_negotiation() {
    let negotiated = || {
        let mut state = DeviceState::new();
        state.set_usb_state(UsbState::Configured);
        set_raw_multipliers(&mut state.multipliers, 1, 1);
        state
    };
    let mut handler = UsbDeviceHandler::new(None);

    let mut state = negotiated();
    handler.reset(&mut state);
    assert_eq!(raw_multipliers(&state.multipliers), (0, 0));
    assert_eq!(state.current_usb_state(), UsbState::Configured);

    let mut state = negotiated();
    handler.configured(false, &mut state);
    assert_eq!(raw_multipliers(&state.multipliers), (0, 0));

    let mut state = negotiated();
    handler.enabled(false, &mut state);
    assert_eq!(raw_multipliers(&state.multipliers), (0, 0));

    let mut state = negotiated();
    handler.suspended(true, &mut state);
    handler.suspended(false, &mut state);
    handler.configured(true, &mut state);
    handler.enabled(true, &mut state);
    assert_eq!(raw_multipliers(&state.multipliers), (1, 1));
}

#[test]
fn interfaces_without_features_accept_every_report() {
    let mut handler = UsbRequestHandler {};
    assert_eq!(handler.set_report(ReportId::Out(0), &[1]), OutResponse::Accepted);
    assert_eq!(handler.set_report(ReportId::Feature(5), &[]), OutResponse::Accepted);
}

#[test]
fn the_host_negotiates_the_multipliers() {
    let mut handler = UsbCompositeRequestHandler {};
    let mut multipliers = Multipliers::new();
    let mut buf = [0xaau8; 4];

    assert_eq!(handler.get_report(ReportId::Feature(5), &mut buf, &multipliers), Some(3));
    assert_eq!(buf, [5, 0, 0, 0xaa]);

    assert_eq!(
        handler.set_report(ReportId::Feature(5), &[5, 1, 0], &mut multipliers),
        OutResponse::Accepted
    );
    assert_eq!(raw_multipliers(&multipliers), (1, 0));
    assert_eq!(handler.get_report(ReportId::Feature(5), &mut buf, &multipliers), Some(3));
    assert_eq!(buf, [5, 1, 0, 0xaa]);

    // Writing back what was read changes nothing.
    let read: [u8; 3] = [buf[0], buf[1], buf[2]];
    assert_eq!(
        handler.set_report(ReportId::Feature(5), &read, &mut multipliers),
        OutResponse::Accepted
    );
    assert_eq!(raw_multipliers(&multipliers), (1, 0));
}

#[test]
fn reports_of_another_form_are_accepted_and_change_nothing() {
    let mut handler = UsbCompositeRequestHandler {};
    let mut multipliers = Multipliers::new();
    set_raw_multipliers(&mut multipliers, 0, 1);
    for data in [&[][..], &[5, 1], &[5, 1, 1, 1], &[4, 1, 0]] {
        assert_eq!(
            handler.set_report(ReportId::Feature(5), data, &mut multipliers),
            OutResponse::Accepted
        );
        assert_eq!(raw_multipliers(&multipliers), (0, 1));
    }
}

#[test]
fn the_lowest_bit_of_each_reported_multiplier_counts() {
    let mut handler = UsbCompositeRequestHandler {};
    let mut multipliers = Multipliers::new();
    for (data, stored) in [([5, 2, 0], (0, 0)), ([5, 3, 2], (1, 0)), ([5, 0, 255], (0, 1))] {
        assert_eq!(
            handler.set_report(ReportId::Feature(5), &data, &mut multipliers),
            OutResponse::Accepted
        );
        assert_eq!(raw_multipliers(&multipliers), stored);
    }
}

#[test]
fn other_reports_do_not_touch_the_multipliers() {
    let mut handler = UsbCompositeRequestHandler {};
    let mut multipliers = Multipliers::new();
    for id in [ReportId::Out(5), ReportId::In(5), ReportId::Feature(2)] {
        assert_eq!(handler.set_report(id, &[5, 1, 1], &mut multipliers), OutResponse::Accepted);
        let mut buf = [0xaau8; 3];
        assert_eq!(handler.get_report(id, &mut buf, &multipliers), None);
        assert_eq!(buf, [0xaa; 3]);
    }
    assert_eq!(raw_multipliers(&multipliers), (0, 0));
    let mut short = [0xaau8; 2];
    assert_eq!(handler.get_report(ReportId::Feature(5), &mut short, &multipliers), None);
    assert_eq!(short, [0xaa; 2]);
}

/// The latest report counts, until the connection ends.
#[test]
fn the_latest_negotiation_counts() {
    let mut device = UsbDeviceHandler::new(Some(PRIMARY_KEYBOARD_INTERFACE));
    let mut composite = UsbCompositeRequestHandler {};
    let mut state = DeviceState::new();
    let id = ReportId::Feature(5);

    composite.set_report(id, &[5, 1, 1], &mut state.multipliers);
    composite.set_report(id, &[5, 0, 1], &mut state.multipliers);
    composite.set_report(id, &[5, 1], &mut state.multipliers);
    device.suspended(true, &mut state);
    assert_eq!(raw_multipliers(&state.multipliers), (0, 1));

    device.reset(&mut state);
    assert_eq!(raw_multipliers(&state.multipliers), (0, 0));
    composite.set_report(id, &[5, 1, 0], &mut state.multipliers);
    assert_eq!(raw_multipliers(&state.multipliers), (1, 0));
    composite.set_report(id, &[5, 0, 0], &mut state.multipliers);
    assert_eq!(raw_multipliers(&state.multipliers), (0, 0));
}
