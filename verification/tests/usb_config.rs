use rmk_hid::hid::{CompositeReport, KeyboardReport, StenoReport};
use rmk_hid::usb::config::{
    buffer_sizes, hid_interface, interfaces, peripheral_interfaces, tagged_serial_number, usb_config,
    with_chip_serial_number, BufferSizes, DeviceConfig, Features, HostProtocol, Interface,
    SerialString,
};
use rmk_hid::usb::handler::PRIMARY_KEYBOARD_INTERFACE;
use rmk_hid::usb::writer::Endpoint;

const PLAIN: Features = Features {
    hires_scroll: false,
    steno: false,
    usb_log: false,
    dfu: false,
    dfu_rp: false,
    dfu_nrf: false,
    host: false,
    dongle: false,
    rynk: false,
    vial: false,
    nrf_ble: false,
};

fn device<'a>() -> DeviceConfig<'a> {
    DeviceConfig {
        vid: 0x4c4b,
        pid: 0x4643,
        manufacturer: "Maker",
        product_name: "Board",
        serial_number: "00000001",
    }
}

#[test]
fn a_plain_keyboard_has_two_interfaces() {
    assert_eq!(interfaces(&PLAIN, true), [Interface::Keyboard, Interface::Composite]);
}

#[test]
fn interfaces_are_added_in_order() {
    let features = Features { steno: true, usb_log: true, dfu_rp: true, host: true, rynk: true, ..PLAIN };
    let list = interfaces(&features, true);
    assert_eq!(
        list,
        [
            Interface::Keyboard,
            Interface::Composite,
            Interface::Steno,
            Interface::Logger,
            Interface::Dfu,
            Interface::Host(HostProtocol::Rynk),
        ]
    );
    assert_eq!(list[PRIMARY_KEYBOARD_INTERFACE as usize], Interface::Keyboard);
    assert!(!interfaces(&features, false).contains(&Interface::Dfu));
}

#[test]
fn a_dongle_relays_rynk_unless_vial_is_chosen() {
    let dongle = Features { dongle: true, ..PLAIN };
    assert!(dongle.rynk_interface());
    assert_eq!(dongle.host_protocol(), Some(HostProtocol::Rynk));
    let vial = Features { dongle: true, vial: true, ..PLAIN };
    assert!(!vial.rynk_interface());
    assert_eq!(vial.host_protocol(), Some(HostProtocol::Vial));
    let host = Features { host: true, vial: true, ..PLAIN };
    assert_eq!(host.host_protocol(), Some(HostProtocol::Vial));
    assert_eq!(PLAIN.host_protocol(), None);
}

#[test]
fn a_host_build_has_exactly_one_protocol() {
    assert!(PLAIN.is_valid());
    assert!(!Features { host: true, ..PLAIN }.is_valid());
    assert!(!Features { host: true, rynk: true, vial: true, ..PLAIN }.is_valid());
    assert!(Features { host: true, rynk: true, ..PLAIN }.is_valid());
    assert!(Features { host: true, vial: true, ..PLAIN }.is_valid());
    assert!(Features { dongle: true, ..PLAIN }.is_valid());
}

#[test]
fn a_peripheral_serves_logging_and_updates_only() {
    let features = Features { usb_log: true, dfu_nrf: true, steno: true, host: true, rynk: true, ..PLAIN };
    assert_eq!(peripheral_interfaces(&features, true), [Interface::Logger, Interface::Dfu]);
    assert_eq!(peripheral_interfaces(&features, false), [Interface::Logger]);
    assert_eq!(peripheral_interfaces(&PLAIN, true), []);
}

#[test]
fn buffers_grow_with_the_interfaces() {
    assert_eq!(
        buffer_sizes(&PLAIN, 4096, false),
        BufferSizes { config_descriptor: 128, bos_descriptor: 16, msos_descriptor: 16, control: 128 }
    );
    assert_eq!(
        buffer_sizes(&Features { dongle: true, ..PLAIN }, 4096, true),
        BufferSizes { config_descriptor: 512, bos_descriptor: 64, msos_descriptor: 256, control: 256 }
    );
    assert_eq!(
        buffer_sizes(&Features { dfu: true, ..PLAIN }, 4096, false),
        BufferSizes { config_descriptor: 256, bos_descriptor: 16, msos_descriptor: 16, control: 4096 }
    );
    for features in [Features { usb_log: true, ..PLAIN }, Features { steno: true, ..PLAIN }] {
        assert_eq!(buffer_sizes(&features, 4096, false).config_descriptor, 256);
    }
}

#[test]
fn the_usb_configuration_is_that_of_a_composite_device() {
    let mut storage = SerialString::empty();
    let config = usb_config(&PLAIN, &device(), "tag:", &mut storage);
    assert_eq!((config.vid, config.pid), (0x4c4b, 0x4643));
    assert_eq!((config.manufacturer, config.product), ("Maker", "Board"));
    assert_eq!(config.serial_number, "00000001");
    assert_eq!((config.max_power, config.max_packet_size_0), (450, 64));
    assert!(config.supports_remote_wakeup && config.composite_with_iads);
    assert_eq!(
        (config.device_class, config.device_sub_class, config.device_protocol),
        (0xef, 0x02, 0x01)
    );
}

#[test]
fn a_rynk_device_shows_the_tagged_serial_number() {
    let mut storage = SerialString::empty();
    let features = Features { host: true, rynk: true, ..PLAIN };
    let config = usb_config(&features, &device(), "tag:", &mut storage);
    assert_eq!(config.serial_number, "tag:00000001");
}

#[test]
fn a_serial_number_that_fits_is_kept_whole() {
    let serial = "s".repeat(60);
    assert_eq!(tagged_serial_number("tag:", &serial).as_str(), "tag:".to_string() + &serial);
}

/// A part that does not fit is left out whole; the size counts in UTF-8 bytes.
#[test]
fn a_serial_number_that_does_not_fit_is_left_out() {
    assert_eq!(tagged_serial_number("tag:", &"s".repeat(61)).as_str(), "tag:");
    assert_eq!(tagged_serial_number(&"t".repeat(65), "1234").as_str(), "1234");
    assert_eq!(tagged_serial_number("", "").as_str(), "");
    let wide = "\u{e9}".repeat(30);
    assert_eq!(tagged_serial_number("tag:", &wide).as_str(), "tag:".to_string() + &wide);
    assert_eq!(tagged_serial_number("tag:", &"\u{e9}".repeat(31)).as_str(), "tag:");
}

#[test]
fn a_chip_with_a_serial_number_shows_its_own() {
    let chip = Features { nrf_ble: true, ..PLAIN };
    assert_eq!(with_chip_serial_number(&chip, device(), "f1ce").serial_number, "f1ce");
    assert_eq!(with_chip_serial_number(&PLAIN, device(), "f1ce").serial_number, "00000001");
    assert_eq!(with_chip_serial_number(&chip, device(), "f1ce").vid, 0x4c4b);
}

#[test]
fn hid_interfaces_are_sized_to_their_reports() {
    let keyboard = hid_interface(Endpoint::Keyboard, &PLAIN);
    assert_eq!(keyboard.report_descriptor, KeyboardReport::desc());
    assert_eq!((keyboard.read_size, keyboard.write_size, keyboard.max_packet_size), (Some(1), 8, 8));
    assert!(keyboard.boot_keyboard);

    let hires = Features { hires_scroll: true, ..PLAIN };
    let composite = hid_interface(Endpoint::Composite, &hires);
    assert_eq!(composite.report_descriptor, CompositeReport::desc(true));
    assert_eq!((composite.read_size, composite.write_size, composite.max_packet_size), (None, 10, 16));
    assert!(composite.negotiates_resolution && !composite.boot_keyboard);
    assert!(!hid_interface(Endpoint::Composite, &PLAIN).negotiates_resolution);

    let steno = hid_interface(Endpoint::Steno, &PLAIN);
    assert_eq!(steno.report_descriptor, StenoReport::desc());
    assert_eq!((steno.write_size, steno.max_packet_size, steno.poll_ms), (9, 16, 1));
}
