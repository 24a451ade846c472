//! The layout of the USB device: its configuration, its buffers and its interfaces, for every
//! selection of features.

use vstd::prelude::*;
use vstd::utf8::encode_utf8;

use crate::descriptor::{decode, encode};
use crate::hid::{CompositeReport, KeyboardReport, StenoReport};
use crate::host_view::law_hosts_read_back_the_descriptors;
use crate::report_maps::{composite_items, keyboard_items, steno_items};
use crate::usb::handler::PRIMARY_KEYBOARD_INTERFACE;
use crate::usb::writer::{
    Endpoint, COMPOSITE_WRITE_SIZE, KEYBOARD_WRITE_SIZE, STENO_WRITE_SIZE,
};

verus! {

/// What a firmware is built with.
#[derive(Debug, Clone, Copy, PartialEq, Eq, Structural)]
pub struct Features {
    /// Negotiate the scroll resolution with the host.
    pub hires_scroll: bool,
    /// Offer a Plover stenography interface.
    pub steno: bool,
    /// Log over a USB serial port.
    pub usb_log: bool,
    /// Firmware update over USB.
    pub dfu: bool,
    /// Firmware update on an RP2040.
    pub dfu_rp: bool,
    /// Firmware update on an nRF52840.
    pub dfu_nrf: bool,
    /// Serve the keyboard's host protocol.
    pub host: bool,
    /// Relay a wireless keyboard.
    pub dongle: bool,
    /// The host protocol is Rynk.
    pub rynk: bool,
    /// The host protocol is Vial.
    pub vial: bool,
    /// The chip is an nRF, whose serial number is derived from its factory registers.
    pub nrf_ble: bool,
}

/// The protocol of the host interface.
#[derive(Debug, Clone, Copy, PartialEq, Eq, Structural)]
pub enum HostProtocol {
    Rynk,
    Vial,
}

impl Features {
    /// The device has a Rynk vendor interface. A dongle relays its keyboard's protocol: Rynk
    /// unless `vial` says otherwise.
    pub open spec fn spec_rynk_interface(self) -> bool {
        self.rynk || (self.dongle && !self.vial)
    }

    /// The host protocols are mutually exclusive, and a build that serves a host has one.
    pub open spec fn wf(self) -> bool {
        &&& !(self.rynk && self.vial)
        &&& self.host ==> self.spec_rynk_interface() || self.vial
    }

    /// Whether the features can be built together.
    pub fn is_valid(&self) -> (valid: bool)
        ensures
            valid == self.wf(),
    {
        !(self.rynk && self.vial) && (!self.host || self.rynk_interface() || self.vial)
    }

    /// Whether the device has a Rynk vendor interface.
    pub fn rynk_interface(&self) -> (present: bool)
        ensures
            present == self.spec_rynk_interface(),
    {
        self.rynk || (self.dongle && !self.vial)
    }

    /// The protocol of the host interface, if there is one.
    pub open spec fn spec_host_protocol(self) -> Option<HostProtocol> {
        if !(self.host || self.dongle) {
            None
        } else if self.vial {
            Some(HostProtocol::Vial)
        } else {
            Some(HostProtocol::Rynk)
        }
    }

    /// The protocol of the host interface, if there is one.
    pub fn host_protocol(&self) -> (protocol: Option<HostProtocol>)
        requires
            self.wf(),
        ensures
            protocol == self.spec_host_protocol(),
            protocol == Some(HostProtocol::Rynk) ==> self.spec_rynk_interface(),
    {
        if !(self.host || self.dongle) {
            None
        } else if self.vial {
            Some(HostProtocol::Vial)
        } else {
            Some(HostProtocol::Rynk)
        }
    }

    /// The device can be updated over USB.
    pub open spec fn spec_updates(self) -> bool {
        self.dfu_rp || self.dfu_nrf
    }
}

/// The buffers that the USB stack needs.
#[derive(Debug, Clone, Copy, PartialEq, Eq, Structural)]
pub struct BufferSizes {
    pub config_descriptor: usize,
    pub bos_descriptor: usize,
    pub msos_descriptor: usize,
    pub control: usize,
}

/// The size of the configuration descriptor buffer. Extra interfaces overflow 128 bytes.
pub open spec fn spec_config_descriptor_size(features: Features) -> usize {
    if features.usb_log || features.steno || features.dfu || features.spec_rynk_interface() {
        256
    } else {
        128
    }
}

/// The room that a caller gets for the classes of its own: a CDC ACM function costs about 66
/// descriptor bytes, an extra HID interface about 40.
pub const EXTRA_CONFIG_DESCRIPTOR_SIZE: usize = 256;

/// The sizes that [`buffer_sizes`] gives.
pub open spec fn spec_buffer_sizes(
    features: Features,
    dfu_block_size: usize,
    extended: bool,
) -> BufferSizes {
    let config = spec_config_descriptor_size(features);
    let rynk = features.spec_rynk_interface();
    BufferSizes {
        config_descriptor: if extended {
            (config + EXTRA_CONFIG_DESCRIPTOR_SIZE) as usize
        } else {
            config
        },
        bos_descriptor: if rynk {
            64
        } else {
            16
        },
        msos_descriptor: if rynk {
            256
        } else {
            16
        },
        control: if features.dfu {
            dfu_block_size
        } else {
            config
        },
    }
}

/// The buffers of a device whose largest firmware block is `dfu_block_size` bytes long, where
/// `extended` leaves room for classes that the caller adds.
///
/// The control buffer must be large enough for the largest firmware block. The MS OS 2.0
/// descriptor set of the Rynk interface takes about 178 bytes, and its BOS platform capability 28
/// on top of the 5-byte BOS header.
pub fn buffer_sizes(features: &Features, dfu_block_size: usize, extended: bool) -> (sizes:
    BufferSizes)
    ensures
        sizes == (BufferSizes {
            config_descriptor: if extended {
                (spec_config_descriptor_size(*features) + EXTRA_CONFIG_DESCRIPTOR_SIZE) as usize
            } else {
                spec_config_descriptor_size(*features)
            },
            bos_descriptor: if features.spec_rynk_interface() {
                64
            } else {
                16
            },
            msos_descriptor: if features.spec_rynk_interface() {
                256
            } else {
                16
            },
            control: if features.dfu {
                dfu_block_size
            } else {
                spec_config_descriptor_size(*features)
            },
        }),
        features.dfu ==> sizes.control == dfu_block_size,
        !features.dfu && !extended ==> sizes.control == sizes.config_descriptor,
        !features.dfu && extended ==> sizes.control + 256 == sizes.config_descriptor,
        features.spec_rynk_interface() ==> sizes.bos_descriptor >= 5 + 28 && sizes.msos_descriptor
            >= 178,
        sizes == spec_buffer_sizes(*features, dfu_block_size, extended),
{
    let rynk = features.rynk_interface();
    let config: usize = if features.usb_log || features.steno || features.dfu || rynk {
        256
    } else {
        128
    };
    BufferSizes {
        config_descriptor: if extended {
            config + EXTRA_CONFIG_DESCRIPTOR_SIZE
        } else {
            config
        },
        bos_descriptor: if rynk {
            64
        } else {
            16
        },
        msos_descriptor: if rynk {
            256
        } else {
            16
        },
        control: if features.dfu {
            dfu_block_size
        } else {
            config
        },
    }
}

/// How the keyboard identifies itself.
#[derive(Debug, Clone, Copy)]
pub struct DeviceConfig<'a> {
    pub vid: u16,
    pub pid: u16,
    pub manufacturer: &'a str,
    pub product_name: &'a str,
    pub serial_number: &'a str,
}

/// The configuration of the USB device.
#[derive(Debug, Clone, Copy)]
pub struct UsbConfig<'a> {
    pub vid: u16,
    pub pid: u16,
    pub manufacturer: &'a str,
    pub product: &'a str,
    pub serial_number: &'a str,
    /// In milliamperes.
    pub max_power: u16,
    pub supports_remote_wakeup: bool,
    pub max_packet_size_0: u8,
    pub device_class: u8,
    pub device_sub_class: u8,
    pub device_protocol: u8,
    pub composite_with_iads: bool,
}

/// The demands of the USB stack on a configuration: the current limit of the bus, a packet size
/// that the control endpoint can have, and the class triple of a composite device with interface
/// associations.
pub open spec fn valid_usb_config(config: UsbConfig) -> bool {
    &&& config.max_power <= 500
    &&& config.max_packet_size_0 == 8 || config.max_packet_size_0 == 16 || config.max_packet_size_0
        == 32 || config.max_packet_size_0 == 64
    &&& config.composite_with_iads ==> config.device_class == 0xef && config.device_sub_class
        == 0x02 && config.device_protocol == 0x01
}

/// The capacity of a tagged serial number in bytes.
pub const SERIAL_NUMBER_CAPACITY: usize = 64;

/// A tagged serial number in a `heapless::String` of [`SERIAL_NUMBER_CAPACITY`] bytes.
#[verifier::external_body]
pub struct SerialString {
    text: heapless::String<64>,
}

/// The characters that a [`SerialString`] holds.
pub uninterp spec fn serial_text(serial: SerialString) -> Seq<char>;

impl SerialString {
    /// Calls `heapless::String::new`, which gives an empty string.
    #[verifier::external_body]
    fn new() -> (serial: Self)
        ensures
            serial_text(serial) == Seq::<char>::empty(),
    {
        SerialString { text: heapless::String::new() }
    }

    /// Calls `heapless::String::push_str`, which appends the whole of `part` if its UTF-8 bytes
    /// fit behind the bytes that are there, and otherwise leaves the string as it was and says
    /// so.
    #[verifier::external_body]
    fn push_str(&mut self, part: &str) -> (fits: bool)
        ensures
            fits == (encode_utf8(serial_text(*old(self))).len() + encode_utf8(part@).len()
                <= SERIAL_NUMBER_CAPACITY),
            serial_text(*final(self)) == (if fits {
                serial_text(*old(self)) + part@
            } else {
                serial_text(*old(self))
            }),
    {
        self.text.push_str(part).is_ok()
    }

    /// Calls `heapless::String::as_str`, which gives the characters that the string holds.
    #[verifier::external_body]
    fn borrow_text(&self) -> (text: &str)
        ensures
            text@ == serial_text(*self),
    {
        self.text.as_str()
    }

    /// A serial number without characters.
    pub fn empty() -> (serial: Self)
        ensures
            serial_text(serial) == Seq::<char>::empty(),
    {
        Self::new()
    }

    /// The serial number.
    pub fn as_str(&self) -> (text: &str)
        ensures
            text@ == serial_text(*self),
    {
        self.borrow_text()
    }
}

/// `text` with `part` behind it, if both fit into a tagged serial number.
pub open spec fn appended(text: Seq<char>, part: Seq<char>) -> Seq<char> {
    if encode_utf8(text).len() + encode_utf8(part).len() <= SERIAL_NUMBER_CAPACITY {
        text + part
    } else {
        text
    }
}

/// The serial number of the keyboard behind the tag of the Rynk protocol: an informational tag for
/// those who list USB devices. A part that does not fit is left out whole.
pub fn tagged_serial_number(tag: &str, serial_number: &str) -> (serial: SerialString)
    ensures
        serial_text(serial) == appended(appended(Seq::empty(), tag@), serial_number@),
{
    let mut serial = SerialString::new();
    let _ = serial.push_str(tag);
    assert(Seq::<char>::empty() + tag@ =~= tag@);
    let _ = serial.push_str(serial_number);
    serial
}

/// A tagged serial number that fits is the tag followed by the serial number.
pub proof fn law_fitting_serial_number_is_kept_whole(tag: Seq<char>, serial_number: Seq<char>)
    requires
        encode_utf8(tag).len() + encode_utf8(serial_number).len() <= SERIAL_NUMBER_CAPACITY,
    ensures
        appended(appended(Seq::empty(), tag), serial_number) == tag + serial_number,
{
    assert(encode_utf8(Seq::empty()).len() == 0);
    assert(Seq::<char>::empty() + tag =~= tag);
}

/// The device configuration with the serial number of the chip, where the chip has one of its
/// own.
pub fn with_chip_serial_number<'a>(
    features: &Features,
    config: DeviceConfig<'a>,
    chip_serial_number: &'a str,
) -> (result: DeviceConfig<'a>)
    ensures
        result == (if features.nrf_ble {
            DeviceConfig { serial_number: chip_serial_number, ..config }
        } else {
            config
        }),
        features.nrf_ble ==> result.serial_number@ == chip_serial_number@,
        !features.nrf_ble ==> result.serial_number@ == config.serial_number@,
{
    if features.nrf_ble {
        DeviceConfig {
            vid: config.vid,
            pid: config.pid,
            manufacturer: config.manufacturer,
            product_name: config.product_name,
            serial_number: chip_serial_number,
        }
    } else {
        config
    }
}

/// The serial number that the host sees. A device with a Rynk interface shows the tagged one, any
/// other the plain one.
pub open spec fn shown_serial_number(
    features: Features,
    config: DeviceConfig,
    tag: Seq<char>,
) -> Seq<char> {
    if features.spec_rynk_interface() {
        appended(appended(Seq::empty(), tag), config.serial_number@)
    } else {
        config.serial_number@
    }
}

/// The configuration of the USB device. `storage` holds the tagged serial number for as long as
/// the configuration is in use.
pub fn usb_config<'a>(
    features: &Features,
    config: &DeviceConfig<'a>,
    tag: &str,
    storage: &'a mut SerialString,
) -> (result: UsbConfig<'a>)
    ensures
        result == (UsbConfig {
            vid: config.vid,
            pid: config.pid,
            manufacturer: config.manufacturer,
            product: config.product_name,
            serial_number: result.serial_number,
            max_power: 450,
            supports_remote_wakeup: true,
            max_packet_size_0: 64,
            device_class: 0xef,
            device_sub_class: 0x02,
            device_protocol: 0x01,
            composite_with_iads: true,
        }),
        (result.vid, result.pid) == (config.vid, config.pid),
        result.manufacturer@ == config.manufacturer@,
        result.product@ == config.product_name@,
        result.supports_remote_wakeup && result.composite_with_iads,
        result.max_power == 450 && result.max_packet_size_0 == 64,
        result.serial_number@ == shown_serial_number(*features, *config, tag@),
        serial_text(*final(storage)) == (if features.spec_rynk_interface() {
            result.serial_number@
        } else {
            serial_text(*old(storage))
        }),
        valid_usb_config(result),
{
    let rynk = features.rynk_interface();
    if rynk {
        *storage = tagged_serial_number(tag, config.serial_number);
    }
    UsbConfig {
        vid: config.vid,
        pid: config.pid,
        manufacturer: config.manufacturer,
        product: config.product_name,
        serial_number: if rynk {
            storage.as_str()
        } else {
            config.serial_number
        },
        max_power: 450,
        supports_remote_wakeup: true,
        // Required for windows compatibility.
        max_packet_size_0: 64,
        device_class: 0xef,
        device_sub_class: 0x02,
        device_protocol: 0x01,
        composite_with_iads: true,
    }
}

/// The interfaces of the device.
#[derive(Debug, Clone, Copy, PartialEq, Eq, Structural)]
pub enum Interface {
    /// The boot keyboard.
    Keyboard,
    /// Mouse, media and system reports.
    Composite,
    /// The Plover stenography interface.
    Steno,
    /// The serial port of the logger.
    Logger,
    /// Firmware update.
    Dfu,
    /// The host protocol.
    Host(HostProtocol),
}

/// `interface` alone if it is `present`, and otherwise nothing.
pub open spec fn optional(present: bool, interface: Interface) -> Seq<Interface> {
    if present {
        seq![interface]
    } else {
        seq![]
    }
}

/// The interfaces of a keyboard in the order in which they are added, where `updater` tells
/// whether a firmware updater is set up.
pub open spec fn spec_interfaces(features: Features, updater: bool) -> Seq<Interface> {
    seq![Interface::Keyboard, Interface::Composite] + optional(features.steno, Interface::Steno)
        + optional(features.usb_log, Interface::Logger) + optional(
        features.spec_updates() && updater,
        Interface::Dfu,
    ) + (match features.spec_host_protocol() {
        Some(protocol) => seq![Interface::Host(protocol)],
        None => seq![],
    })
}

/// The interfaces of a keyboard in the order in which they are added.
pub fn interfaces(features: &Features, updater: bool) -> (list: Vec<Interface>)
    requires
        features.wf(),
    ensures
        list@ == spec_interfaces(*features, updater),
{
    let mut list: Vec<Interface> = Vec::new();
    list.push(Interface::Keyboard);
    list.push(Interface::Composite);
    if features.steno {
        list.push(Interface::Steno);
    }
    if features.usb_log {
        list.push(Interface::Logger);
    }
    if (features.dfu_rp || features.dfu_nrf) && updater {
        list.push(Interface::Dfu);
    }
    if let Some(protocol) = features.host_protocol() {
        list.push(Interface::Host(protocol));
    }
    assert(list@ =~= spec_interfaces(*features, updater));
    list
}

/// The interfaces of a split peripheral in the order in which they are added.
pub open spec fn spec_peripheral_interfaces(features: Features, updater: bool) -> Seq<Interface> {
    optional(features.usb_log, Interface::Logger) + optional(
        features.spec_updates() && updater,
        Interface::Dfu,
    )
}

/// The interfaces of a split peripheral: it serves only the logger and firmware update.
pub fn peripheral_interfaces(features: &Features, updater: bool) -> (list: Vec<Interface>)
    ensures
        list@ == spec_peripheral_interfaces(*features, updater),
{
    let mut list: Vec<Interface> = Vec::new();
    if features.usb_log {
        list.push(Interface::Logger);
    }
    if (features.dfu_rp || features.dfu_nrf) && updater {
        list.push(Interface::Dfu);
    }
    assert(list@ =~= spec_peripheral_interfaces(*features, updater));
    list
}

/// In every build the boot keyboard comes first, so it has the interface number whose protocol
/// requests the device handler answers; no interface is added twice.
pub proof fn law_keyboard_is_the_primary_interface(features: Features, updater: bool)
    requires
        features.wf(),
    ensures
        spec_interfaces(features, updater)[PRIMARY_KEYBOARD_INTERFACE as int]
            == Interface::Keyboard,
        spec_interfaces(features, updater).no_duplicates(),
{
}

/// A split peripheral has no keyboard whose protocol requests it could answer.
pub proof fn law_peripheral_has_no_keyboard(features: Features, updater: bool)
    ensures
        !spec_peripheral_interfaces(features, updater).contains(Interface::Keyboard),
{
}

/// A build has at most one host interface.
pub proof fn law_at_most_one_host_interface(features: Features, updater: bool, i: int, j: int)
    requires
        features.wf(),
        0 <= i < spec_interfaces(features, updater).len(),
        0 <= j < spec_interfaces(features, updater).len(),
        spec_interfaces(features, updater)[i] is Host,
        spec_interfaces(features, updater)[j] is Host,
    ensures
        i == j,
{
}

/// How a HID interface of the device is set up.
#[derive(Debug)]
pub struct HidInterface {
    pub report_descriptor: Vec<u8>,
    /// The longest report that the host sends to the interface, if it has an OUT endpoint.
    pub read_size: Option<usize>,
    /// The longest report that the device sends.
    pub write_size: usize,
    /// How often the host polls.
    pub poll_ms: u8,
    pub max_packet_size: u16,
    /// The interface advertises the boot subclass and the keyboard protocol.
    pub boot_keyboard: bool,
    /// The host negotiates the scroll resolution over the interface.
    pub negotiates_resolution: bool,
}

/// The report descriptor behind an endpoint.
pub open spec fn endpoint_descriptor(endpoint: Endpoint, hires_scroll: bool) -> Seq<u8> {
    match endpoint {
        Endpoint::Keyboard => encode(keyboard_items(None)),
        Endpoint::Composite => encode(composite_items(hires_scroll)),
        Endpoint::Steno => encode(steno_items()),
    }
}

/// The set-up of the HID interface behind an endpoint.
///
/// The primary interface advertises the boot keyboard, at which hosts enable wakeup, and reads one
/// byte of LED status.
pub fn hid_interface(endpoint: Endpoint, features: &Features) -> (interface: HidInterface)
    ensures
        interface.report_descriptor@ == endpoint_descriptor(endpoint, features.hires_scroll),
        interface.read_size == (if endpoint == Endpoint::Keyboard {
            Some(1usize)
        } else {
            None
        }),
        interface.write_size == endpoint.spec_capacity(),
        interface.poll_ms == 1,
        interface.max_packet_size == (if endpoint == Endpoint::Keyboard {
            8u16
        } else {
            16u16
        }),
        interface.write_size <= interface.max_packet_size,
        interface.boot_keyboard == (endpoint == Endpoint::Keyboard),
        interface.negotiates_resolution == (endpoint == Endpoint::Composite
            && features.hires_scroll),
        endpoint == Endpoint::Composite ==> interface.report_descriptor@ == encode(
            composite_items(interface.negotiates_resolution),
        ),
        interface.boot_keyboard <==> interface.read_size == Some(1usize),
{
    match endpoint {
        Endpoint::Keyboard => HidInterface {
            report_descriptor: KeyboardReport::desc(),
            read_size: Some(1),
            write_size: KEYBOARD_WRITE_SIZE,
            poll_ms: 1,
            max_packet_size: 8,
            boot_keyboard: true,
            negotiates_resolution: false,
        },
        Endpoint::Composite => HidInterface {
            report_descriptor: CompositeReport::desc(features.hires_scroll),
            read_size: None,
            write_size: COMPOSITE_WRITE_SIZE,
            poll_ms: 1,
            max_packet_size: 16,
            boot_keyboard: false,
            negotiates_resolution: features.hires_scroll,
        },
        Endpoint::Steno => HidInterface {
            report_descriptor: StenoReport::desc(),
            read_size: None,
            write_size: STENO_WRITE_SIZE,
            poll_ms: 1,
            max_packet_size: 16,
            boot_keyboard: false,
            negotiates_resolution: false,
        },
    }
}

/// A device has a Rynk interface where its build has the protocol, or is a dongle that does not
/// relay Vial instead.
pub proof fn law_rynk_interface_is_built_or_relayed(features: Features)
    ensures
        features.rynk ==> features.spec_rynk_interface(),
        features.dongle && !features.vial ==> features.spec_rynk_interface(),
        !features.rynk && !features.dongle ==> !features.spec_rynk_interface(),
        !features.rynk && features.vial ==> !features.spec_rynk_interface(),
{
}

/// The features fit together exactly where at most one host protocol is chosen and a host build
/// has one, chosen or relayed.
pub proof fn law_features_fit_together(features: Features)
    ensures
        features.rynk && features.vial ==> !features.wf(),
        features.host && !features.rynk && !features.vial && !features.dongle ==> !features.wf(),
        !features.host && !(features.rynk && features.vial) ==> features.wf(),
        (features.rynk || features.vial || features.dongle) && !(features.rynk && features.vial)
            ==> features.wf(),
{
}

/// Every build that serves a host or relays a keyboard has a host protocol: Vial where that is
/// chosen, and Rynk otherwise.
pub proof fn law_host_protocol_is_vial_where_chosen(features: Features)
    ensures
        features.spec_host_protocol() is None <==> !features.host && !features.dongle,
        features.spec_host_protocol() == Some(HostProtocol::Vial) <==> (features.host
            || features.dongle) && features.vial,
        features.spec_host_protocol() == Some(HostProtocol::Rynk) <==> (features.host
            || features.dongle) && !features.vial,
{
}

proof fn lemma_contains_append(a: Seq<Interface>, b: Seq<Interface>, x: Interface)
    ensures
        (a + b).contains(x) <==> a.contains(x) || b.contains(x),
{
    let s = a + b;
    if a.contains(x) {
        let i = choose|i: int| 0 <= i < a.len() && a[i] == x;
        assert(s[i] == x);
    }
    if b.contains(x) {
        let i = choose|i: int| 0 <= i < b.len() && b[i] == x;
        assert(s[a.len() + i] == x);
    }
    if s.contains(x) {
        let i = choose|i: int| 0 <= i < s.len() && s[i] == x;
        if i < a.len() {
            assert(a[i] == x);
        } else {
            assert(b[i - a.len()] == x);
        }
    }
}

proof fn lemma_contains_single(a: Interface, x: Interface)
    ensures
        seq![a].contains(x) <==> a == x,
        !Seq::<Interface>::empty().contains(x),
{
    assert(seq![a][0] == a);
}

/// A keyboard has exactly the interfaces that it was built for: the keyboard and the composite
/// interface always, and each of the others if and only if its feature is there, firmware update
/// only with an updater. The host interface is that of Vial where Vial is chosen, and that of Rynk
/// otherwise.
pub proof fn law_interfaces_are_those_of_the_features(features: Features, updater: bool)
    ensures
        ({
            let list = spec_interfaces(features, updater);
            &&& list.contains(Interface::Keyboard)
            &&& list.contains(Interface::Composite)
            &&& list.contains(Interface::Steno) <==> features.steno
            &&& list.contains(Interface::Logger) <==> features.usb_log
            &&& list.contains(Interface::Dfu) <==> (features.dfu_rp || features.dfu_nrf) && updater
            &&& list.contains(Interface::Host(HostProtocol::Vial)) <==> (features.host
                || features.dongle) && features.vial
            &&& list.contains(Interface::Host(HostProtocol::Rynk)) <==> (features.host
                || features.dongle) && !features.vial
        }),
{
    let first = seq![Interface::Keyboard, Interface::Composite];
    let steno = optional(features.steno, Interface::Steno);
    let logger = optional(features.usb_log, Interface::Logger);
    let dfu = optional(features.spec_updates() && updater, Interface::Dfu);
    let host = match features.spec_host_protocol() {
        Some(protocol) => seq![Interface::Host(protocol)],
        None => seq![],
    };
    assert(spec_interfaces(features, updater) == first + steno + logger + dfu + host);
    assert(first[0] == Interface::Keyboard && first[1] == Interface::Composite);
    assert forall|x: Interface|
        #[trigger] spec_interfaces(features, updater).contains(x) <==> first.contains(x)
            || steno.contains(x) || logger.contains(x) || dfu.contains(x) || host.contains(x) by {
        lemma_contains_append(first + steno + logger + dfu, host, x);
        lemma_contains_append(first + steno + logger, dfu, x);
        lemma_contains_append(first + steno, logger, x);
        lemma_contains_append(first, steno, x);
    }
    assert forall|x: Interface| #[trigger] first.contains(x) implies x == Interface::Keyboard || x
        == Interface::Composite by {}
    assert forall|a: Interface, x: Interface| #[trigger] seq![a].contains(x) <==> a == x by {
        lemma_contains_single(a, x);
    }
    assert forall|x: Interface| !#[trigger] Seq::<Interface>::empty().contains(x) by {
        lemma_contains_single(x, x);
    }
}

/// Where an interface stands in the order in which interfaces are added.
pub open spec fn interface_rank(interface: Interface) -> int {
    match interface {
        Interface::Keyboard => 0,
        Interface::Composite => 1,
        Interface::Steno => 2,
        Interface::Logger => 3,
        Interface::Dfu => 4,
        Interface::Host(_) => 5,
    }
}

/// The interfaces are added in one order, whatever is left out: keyboard, composite, stenography,
/// logger, firmware update, host. So the keyboard is interface 0 and the composite interface 1.
pub proof fn law_interfaces_are_in_order(features: Features, updater: bool)
    ensures
        ({
            let list = spec_interfaces(features, updater);
            &&& list[0] == Interface::Keyboard
            &&& list[1] == Interface::Composite
            &&& forall|i: int, j: int|
                0 <= i < j < list.len() ==> interface_rank(#[trigger] list[i]) < interface_rank(
                    #[trigger] list[j],
                )
        }),
{
}

/// A split peripheral has the logger if and only if it was built for it, firmware update if and
/// only if it was built for it and has an updater, in this order, and nothing else.
pub proof fn law_peripheral_interfaces_are_those_of_the_features(features: Features, updater: bool)
    ensures
        ({
            let list = spec_peripheral_interfaces(features, updater);
            let updates = (features.dfu_rp || features.dfu_nrf) && updater;
            &&& list.len() == (if features.usb_log {
                1int
            } else {
                0
            }) + (if updates {
                1int
            } else {
                0
            })
            &&& features.usb_log ==> list[0] == Interface::Logger
            &&& updates ==> list.last() == Interface::Dfu
        }),
{
}

/// The configuration descriptor has 256 bytes where any extra interface is built, and otherwise
/// 128.
pub proof fn law_extra_interfaces_need_a_larger_descriptor(features: Features)
    ensures
        features.usb_log || features.steno || features.dfu || features.rynk || (features.dongle
            && !features.vial) ==> spec_config_descriptor_size(features) == 256,
        !features.usb_log && !features.steno && !features.dfu && !features.rynk && (
        !features.dongle || features.vial) ==> spec_config_descriptor_size(features) == 128,
{
}

/// A part is appended whole where the text and the part take at most 64 bytes together, and is
/// left out whole where they take more.
pub proof fn law_serial_number_parts_are_whole(text: Seq<char>, part: Seq<char>)
    ensures
        encode_utf8(text).len() + encode_utf8(part).len() <= 64 ==> appended(text, part) == text
            + part,
        encode_utf8(text).len() + encode_utf8(part).len() > 64 ==> appended(text, part) == text,
{
}

/// A device without a Rynk interface shows its serial number as it is; one with a Rynk interface
/// shows the tag in front of it, as far as both fit.
pub proof fn law_shown_serial_number(features: Features, config: DeviceConfig, tag: Seq<char>)
    ensures
        !features.rynk && (!features.dongle || features.vial) ==> shown_serial_number(
            features,
            config,
            tag,
        ) == config.serial_number@,
        (features.rynk || (features.dongle && !features.vial)) && encode_utf8(tag).len()
            + encode_utf8(config.serial_number@).len() <= 64 ==> shown_serial_number(
            features,
            config,
            tag,
        ) == tag + config.serial_number@,
        (features.rynk || (features.dongle && !features.vial)) && encode_utf8(tag).len() <= 64
            && encode_utf8(tag).len() + encode_utf8(config.serial_number@).len() > 64
            ==> shown_serial_number(features, config, tag) == tag,
        (features.rynk || (features.dongle && !features.vial)) && encode_utf8(tag).len() > 64
            && encode_utf8(config.serial_number@).len() <= 64 ==> shown_serial_number(
            features,
            config,
            tag,
        ) == config.serial_number@,
{
    assert(encode_utf8(Seq::empty()).len() == 0);
    assert(Seq::<char>::empty() + tag =~= tag);
    assert(Seq::<char>::empty() + config.serial_number@ =~= config.serial_number@);
}

/// A host reads behind each endpoint the items of its reports: the boot keyboard without a report
/// id, the composite reports with the multipliers exactly in a hi-res build, and the chord.
pub proof fn law_endpoint_descriptors_read_back(hires_scroll: bool)
    ensures
        decode(endpoint_descriptor(Endpoint::Keyboard, hires_scroll)) == Some(keyboard_items(None)),
        decode(endpoint_descriptor(Endpoint::Composite, hires_scroll)) == Some(
            composite_items(hires_scroll),
        ),
        decode(endpoint_descriptor(Endpoint::Steno, hires_scroll)) == Some(steno_items()),
{
    law_hosts_read_back_the_descriptors(hires_scroll, 0);
}

/// Room for classes of the caller adds 256 bytes to the configuration descriptor and nothing else.
/// A firmware block of any size fits the control buffer of a build with firmware update, and in any
/// other build that buffer is as large as the plain configuration descriptor. The descriptors of a
/// Rynk interface fit where there is one, and no room is kept for them where there is none.
pub proof fn law_buffers_fit_what_they_hold(features: Features, dfu_block_size: usize)
    ensures
        ({
            let plain = spec_buffer_sizes(features, dfu_block_size, false);
            let extended = spec_buffer_sizes(features, dfu_block_size, true);
            let rynk = features.rynk || (features.dongle && !features.vial);
            &&& plain.config_descriptor == 128 || plain.config_descriptor == 256
            &&& extended.config_descriptor == plain.config_descriptor + 256
            &&& extended.bos_descriptor == plain.bos_descriptor
            &&& extended.msos_descriptor == plain.msos_descriptor
            &&& extended.control == plain.control
            &&& features.dfu ==> plain.control == dfu_block_size
            &&& !features.dfu ==> plain.control == plain.config_descriptor
            &&& rynk ==> plain.bos_descriptor == 64 && plain.msos_descriptor == 256
            &&& !rynk ==> plain.bos_descriptor == 16 && plain.msos_descriptor == 16
        }),
{
}

} // verus!
