//! The HID reports that the device sends, and the errors of sending and receiving them.

use vstd::prelude::*;

use crate::wire::{i16_le_bytes, le16, overwrite, AsInputReport, ReportOverflow};

verus! {

/// The report id that the Plover stenography host expects in front of every chord.
pub const PLOVER_HID_REPORT_ID: u8 = 0x50;

/// Payload size of the vendor reports that carry a configuration protocol.
pub const RYNK_HID_REPORT_SIZE: usize = 32;

/// Wire size of [`MouseReport`]: sizes the BLE report characteristic and the USB composite write
/// buffer.
pub const MOUSE_REPORT_SIZE: usize = 9;

/// Predefined report ids for composite hid reports, the same that the report descriptors of
/// `CompositeReport` and `BleCompositeReport` declare.
#[derive(Debug, Copy, Clone, PartialEq, Eq, PartialOrd, Ord, Structural)]
pub enum CompositeReportType {
    NoReport,
    /// Used only in the BLE report map; the USB keyboard interface stays a report-ID-less boot
    /// keyboard.
    Keyboard,
    Mouse,
    Media,
    System,
}

impl CompositeReportType {
    /// The report id on the wire.
    pub open spec fn spec_id(self) -> u8 {
        match self {
            CompositeReportType::NoReport => 0x00,
            CompositeReportType::Keyboard => 0x01,
            CompositeReportType::Mouse => 0x02,
            CompositeReportType::Media => 0x03,
            CompositeReportType::System => 0x04,
        }
    }

    /// The report id on the wire.
    pub fn id(self) -> (id: u8)
        ensures
            id == self.spec_id(),
    {
        match self {
            CompositeReportType::NoReport => 0x00,
            CompositeReportType::Keyboard => 0x01,
            CompositeReportType::Mouse => 0x02,
            CompositeReportType::Media => 0x03,
            CompositeReportType::System => 0x04,
        }
    }
}

impl Default for CompositeReportType {
    fn default() -> (kind: Self)
        ensures
            kind == CompositeReportType::NoReport,
    {
        CompositeReportType::NoReport
    }
}

/// Different kinds of composite reports carry different report ids.
pub proof fn law_report_ids_are_distinct(a: CompositeReportType, b: CompositeReportType)
    ensures
        a.spec_id() == b.spec_id() ==> a == b,
{
}

/// No input report of the composite interface uses the id of the Resolution Multiplier feature.
pub proof fn law_multiplier_report_id_is_reserved(kind: CompositeReportType)
    ensures
        kind.spec_id() != crate::hires::RESOLUTION_MULTIPLIER_REPORT_ID,
{
}

/// KeyboardReport describes a report that can be used to send keyboard button presses to a host
/// and receive the status of the keyboard LEDs.
#[derive(Debug, Clone, Copy, PartialEq, Eq)]
pub struct KeyboardReport {
    pub modifier: u8,
    pub reserved: u8,
    /// The LED status, which travels from the host and is not part of the input report.
    pub leds: u8,
    pub keycodes: [u8; 6],
}

impl Default for KeyboardReport {
    fn default() -> (report: Self)
        ensures
            report.modifier == 0,
            report.reserved == 0,
            report.leds == 0,
            report.keycodes@ == seq![0u8, 0, 0, 0, 0, 0],
    {
        KeyboardReport { modifier: 0, reserved: 0, leds: 0, keycodes: [0, 0, 0, 0, 0, 0] }
    }
}

impl AsInputReport for KeyboardReport {
    /// The 8-byte boot keyboard layout, without a report id.
    open spec fn wire(&self) -> Seq<u8> {
        seq![self.modifier, self.reserved] + self.keycodes@
    }

    fn serialize(&self, buffer: &mut [u8]) -> (result: Result<usize, ReportOverflow>) {
        if buffer.len() < 8 {
            return Err(ReportOverflow);
        }
        buffer[0] = self.modifier;
        buffer[1] = self.reserved;
        let mut i: usize = 0;
        while i < 6
            invariant
                i <= 6,
                buffer@.len() == old(buffer)@.len() >= 8,
                buffer@ == overwrite(
                    old(buffer)@,
                    seq![self.modifier, self.reserved] + self.keycodes@.take(i as int),
                ),
            decreases 6 - i,
        {
            buffer[2 + i] = self.keycodes[i];
            i = i + 1;
        }
        assert(self.keycodes@.take(6) =~= self.keycodes@);
        Ok(8)
    }
}

/// Vendor HID report carrying the Via config protocol.
#[derive(Debug, Clone, Copy, PartialEq, Eq)]
pub struct ViaReport {
    pub input_data: [u8; 32],
    pub output_data: [u8; 32],
}

/// Vendor HID report carrying the Rynk config protocol.
#[derive(Debug, Clone, Copy, PartialEq, Eq)]
pub struct RynkHidReport {
    pub input_data: [u8; 32],
    pub output_data: [u8; 32],
}

/// Writes a 32-byte vendor payload to the start of `buffer`.
fn serialize_vendor(payload: &[u8; 32], buffer: &mut [u8]) -> (result: Result<
    usize,
    ReportOverflow,
>)
    ensures
        result == crate::wire::serialize_result(32, old(buffer)@.len()),
        final(buffer)@ == (match result {
            Ok(n) => overwrite(old(buffer)@, payload@),
            Err(_) => old(buffer)@,
        }),
{
    if buffer.len() < 32 {
        return Err(ReportOverflow);
    }
    let mut i: usize = 0;
    assert(buffer@ =~= overwrite(buffer@, payload@.take(0)));
    while i < 32
        invariant
            i <= 32,
            buffer@.len() == old(buffer)@.len() >= 32,
            buffer@ == overwrite(old(buffer)@, payload@.take(i as int)),
        decreases 32 - i,
    {
        buffer[i] = payload[i];
        i = i + 1;
    }
    assert(payload@.take(32) =~= payload@);
    Ok(32)
}

impl Default for ViaReport {
    fn default() -> (report: Self)
        ensures
            report.input_data@ == Seq::new(32, |i: int| 0u8),
            report.output_data@ == Seq::new(32, |i: int| 0u8),
    {
        ViaReport { input_data: [0;32], output_data: [0;32] }
    }
}

impl AsInputReport for ViaReport {
    open spec fn wire(&self) -> Seq<u8> {
        self.input_data@
    }

    fn serialize(&self, buffer: &mut [u8]) -> (result: Result<usize, ReportOverflow>) {
        serialize_vendor(&self.input_data, buffer)
    }
}

impl Default for RynkHidReport {
    fn default() -> (report: Self)
        ensures
            report.input_data@ == Seq::new(32, |i: int| 0u8),
            report.output_data@ == Seq::new(32, |i: int| 0u8),
    {
        RynkHidReport { input_data: [0;32], output_data: [0;32] }
    }
}

impl AsInputReport for RynkHidReport {
    open spec fn wire(&self) -> Seq<u8> {
        self.input_data@
    }

    fn serialize(&self, buffer: &mut [u8]) -> (result: Result<usize, ReportOverflow>) {
        serialize_vendor(&self.input_data, buffer)
    }
}

/// The vendor payload is exactly as long as the protocol's report size.
pub proof fn law_rynk_report_has_the_protocol_size(report: RynkHidReport)
    ensures
        report.wire().len() == RYNK_HID_REPORT_SIZE,
{
}

/// Plover HID stenography report.
///
/// Plover reads 9-byte reports (`[0x50, k0, k1, ..., k7]`) where the eight payload bytes are a
/// 64-bit big-endian bitmap of the live steno chord: chart index 0 is the most significant bit of
/// `k0` and chart index 63 is the least significant bit of `k7`.
#[derive(Debug, Clone, Copy, PartialEq, Eq)]
pub struct StenoReport {
    pub keys: [u8; 8],
}

impl Default for StenoReport {
    fn default() -> (report: Self)
        ensures
            report.keys@ == seq![0u8, 0, 0, 0, 0, 0, 0, 0],
    {
        StenoReport { keys: [0, 0, 0, 0, 0, 0, 0, 0] }
    }
}

impl AsInputReport for StenoReport {
    /// The Plover HID report id followed by the eight chord-bitmap bytes.
    open spec fn wire(&self) -> Seq<u8> {
        seq![PLOVER_HID_REPORT_ID] + self.keys@
    }

    fn serialize(&self, buffer: &mut [u8]) -> (result: Result<usize, ReportOverflow>) {
        if buffer.len() < 9 {
            return Err(ReportOverflow);
        }
        buffer[0] = PLOVER_HID_REPORT_ID;
        let mut i: usize = 0;
        while i < 8
            invariant
                i <= 8,
                buffer@.len() == old(buffer)@.len() >= 9,
                buffer@ == overwrite(
                    old(buffer)@,
                    seq![PLOVER_HID_REPORT_ID] + self.keys@.take(i as int),
                ),
            decreases 8 - i,
        {
            buffer[1 + i] = self.keys[i];
            i = i + 1;
        }
        assert(self.keys@.take(8) =~= self.keys@);
        Ok(9)
    }
}

/// Mouse HID report.
#[derive(Debug, Clone, Copy, PartialEq, Eq, Structural)]
pub struct MouseReport {
    pub buttons: u8,
    pub x: i16,
    pub y: i16,
    /// Scroll down (negative) or up (positive) this many units
    pub wheel: i16,
    /// Scroll left (negative) or right (positive) this many units
    pub pan: i16,
}

impl Default for MouseReport {
    fn default() -> (report: Self)
        ensures
            report == (MouseReport { buttons: 0, x: 0, y: 0, wheel: 0, pan: 0 }),
    {
        MouseReport { buttons: 0, x: 0, y: 0, wheel: 0, pan: 0 }
    }
}

impl AsInputReport for MouseReport {
    /// The buttons, then the four axes in little-endian order.
    open spec fn wire(&self) -> Seq<u8> {
        seq![self.buttons] + le16(self.x as int) + le16(self.y as int) + le16(self.wheel as int)
            + le16(self.pan as int)
    }

    fn serialize(&self, buffer: &mut [u8]) -> (result: Result<usize, ReportOverflow>) {
        if buffer.len() < MOUSE_REPORT_SIZE {
            return Err(ReportOverflow);
        }
        let x = i16_le_bytes(self.x);
        let y = i16_le_bytes(self.y);
        let wheel = i16_le_bytes(self.wheel);
        let pan = i16_le_bytes(self.pan);
        buffer[0] = self.buttons;
        buffer[1] = x.0;
        buffer[2] = x.1;
        buffer[3] = y.0;
        buffer[4] = y.1;
        buffer[5] = wheel.0;
        buffer[6] = wheel.1;
        buffer[7] = pan.0;
        buffer[8] = pan.1;
        proof {
            let bytes = seq![self.buttons] + seq![x.0, x.1] + seq![y.0, y.1] + seq![
                wheel.0,
                wheel.1,
            ] + seq![pan.0, pan.1];
            assert(bytes == self.wire());
            assert(buffer@ =~= overwrite(old(buffer)@, bytes));
        }
        Ok(MOUSE_REPORT_SIZE)
    }
}

/// The wire encoding keeps the buttons and every axis of a mouse report: two reports that look
/// the same on the wire are the same.
pub proof fn law_mouse_wire_is_lossless(a: MouseReport, b: MouseReport)
    requires
        a.wire() == b.wire(),
    ensures
        a == b,
{
    crate::wire::law_le16_is_lossless(a.x);
    crate::wire::law_le16_is_lossless(a.y);
    crate::wire::law_le16_is_lossless(a.wheel);
    crate::wire::law_le16_is_lossless(a.pan);
    crate::wire::law_le16_is_lossless(b.x);
    crate::wire::law_le16_is_lossless(b.y);
    crate::wire::law_le16_is_lossless(b.wheel);
    crate::wire::law_le16_is_lossless(b.pan);
    let w = a.wire();
    assert(w.len() == 9 && w[0] == a.buttons && w[0] == b.buttons);
    assert(w.subrange(1, 3) =~= le16(a.x as int) && w.subrange(1, 3) =~= le16(b.x as int));
    assert(w.subrange(3, 5) =~= le16(a.y as int) && w.subrange(3, 5) =~= le16(b.y as int));
    assert(w.subrange(5, 7) =~= le16(a.wheel as int) && w.subrange(5, 7) =~= le16(b.wheel as int));
    assert(w.subrange(7, 9) =~= le16(a.pan as int) && w.subrange(7, 9) =~= le16(b.pan as int));
}

/// Declares `usbd_hid::descriptor::BufferOverflow`, the error of a report that does not fit into
/// its buffer. Nothing is claimed of its values.
#[verifier::external_type_specification]
#[verifier::external_body]
pub struct ExBufferOverflow(usbd_hid::descriptor::BufferOverflow);

/// Calls `AsInputReport::serialize` of `usbd_hid::descriptor::MediaKeyboardReport`, which writes
/// the usage id in little-endian order to the first two bytes and refuses a shorter buffer before
/// it writes anything.
#[verifier::external_body]
fn serialize_media_usage(usage_id: u16, buffer: &mut [u8]) -> (result: Result<
    usize,
    usbd_hid::descriptor::BufferOverflow,
>)
    ensures
        result is Err <==> old(buffer)@.len() < 2,
        result is Ok ==> result->Ok_0 == 2,
        final(buffer)@ == (if result is Ok {
            overwrite(old(buffer)@, le16(usage_id as int))
        } else {
            old(buffer)@
        }),
{
    let report = usbd_hid::descriptor::MediaKeyboardReport { usage_id };
    usbd_hid::descriptor::AsInputReport::serialize(&report, buffer)
}

/// Calls `AsInputReport::serialize` of `usbd_hid::descriptor::SystemControlReport`, which writes
/// the usage id to the first byte and refuses an empty buffer.
#[verifier::external_body]
fn serialize_system_usage(usage_id: u8, buffer: &mut [u8]) -> (result: Result<
    usize,
    usbd_hid::descriptor::BufferOverflow,
>)
    ensures
        result is Err <==> old(buffer)@.len() < 1,
        result is Ok ==> result->Ok_0 == 1,
        final(buffer)@ == (if result is Ok {
            overwrite(old(buffer)@, seq![usage_id])
        } else {
            old(buffer)@
        }),
{
    let report = usbd_hid::descriptor::SystemControlReport { usage_id };
    usbd_hid::descriptor::AsInputReport::serialize(&report, buffer)
}

/// Media keyboard report: one consumer usage.
#[derive(Debug, Clone, Copy, PartialEq, Eq, Structural)]
pub struct MediaKeyboardReport {
    pub usage_id: u16,
}

impl AsInputReport for MediaKeyboardReport {
    open spec fn wire(&self) -> Seq<u8> {
        le16(self.usage_id as int)
    }

    fn serialize(&self, buffer: &mut [u8]) -> (result: Result<usize, ReportOverflow>) {
        match serialize_media_usage(self.usage_id, buffer) {
            Ok(n) => Ok(n),
            Err(_) => Err(ReportOverflow),
        }
    }
}

/// System control report: one system control usage.
#[derive(Debug, Clone, Copy, PartialEq, Eq, Structural)]
pub struct SystemControlReport {
    pub usage_id: u8,
}

impl AsInputReport for SystemControlReport {
    open spec fn wire(&self) -> Seq<u8> {
        seq![self.usage_id]
    }

    fn serialize(&self, buffer: &mut [u8]) -> (result: Result<usize, ReportOverflow>) {
        match serialize_system_usage(self.usage_id, buffer) {
            Ok(n) => Ok(n),
            Err(_) => Err(ReportOverflow),
        }
    }
}

/// The fields of the composite report, which contains mouse, consumer and system reports. Report
/// ids distinguish them.
///
/// Only the report descriptor is built from it: input payloads are serialized from
/// [`MouseReport`] and friends, and the multipliers travel over control transfers.
#[derive(Debug, Clone, Copy, PartialEq, Eq, Structural)]
pub struct CompositeReport {
    pub buttons: u8,
    pub x: i16,
    pub y: i16,
    /// Scroll down (negative) or up (positive) this many units
    pub wheel: i16,
    /// Scroll left (negative) or right (positive) this many units
    pub pan: i16,
    pub media_usage_id: u16,
    pub system_usage_id: u8,
    /// Feature field, declared by a build with hi-res scrolling only.
    pub wheel_multiplier: u8,
    /// Feature field, declared by a build with hi-res scrolling only.
    pub pan_multiplier: u8,
}

impl Default for CompositeReport {
    fn default() -> (report: Self)
        ensures
            report == (CompositeReport {
                buttons: 0,
                x: 0,
                y: 0,
                wheel: 0,
                pan: 0,
                media_usage_id: 0,
                system_usage_id: 0,
                wheel_multiplier: 0,
                pan_multiplier: 0,
            }),
    {
        CompositeReport {
            buttons: 0,
            x: 0,
            y: 0,
            wheel: 0,
            pan: 0,
            media_usage_id: 0,
            system_usage_id: 0,
            wheel_multiplier: 0,
            pan_multiplier: 0,
        }
    }
}

/// The BLE report map: everything in one HID service, distinguished by report id.
///
/// Android's HID host only attaches to the first HID service instance, so unlike USB the
/// keyboard, mouse, media and system reports must share a single service. Only the report
/// descriptor is built from it; payloads are serialized from [`KeyboardReport`], [`MouseReport`]
/// and so on, as HID-over-GATT carries the report id in the Report Reference descriptor instead of
/// the payload.
#[derive(Debug, Clone, Copy, PartialEq, Eq)]
pub struct BleCompositeReport {
    pub modifier: u8,
    pub reserved: u8,
    pub leds: u8,
    pub keycodes: [u8; 6],
    pub buttons: u8,
    pub x: i16,
    pub y: i16,
    pub wheel: i16,
    pub pan: i16,
    pub media_usage_id: u16,
    pub system_usage_id: u8,
}

impl Default for BleCompositeReport {
    fn default() -> (report: Self)
        ensures
            report.modifier == 0,
            report.reserved == 0,
            report.leds == 0,
            report.keycodes@ == seq![0u8, 0, 0, 0, 0, 0],
            report.buttons == 0,
            report.x == 0,
            report.y == 0,
            report.wheel == 0,
            report.pan == 0,
            report.media_usage_id == 0,
            report.system_usage_id == 0,
    {
        BleCompositeReport {
            modifier: 0,
            reserved: 0,
            leds: 0,
            keycodes: [0, 0, 0, 0, 0, 0],
            buttons: 0,
            x: 0,
            y: 0,
            wheel: 0,
            pan: 0,
            media_usage_id: 0,
            system_usage_id: 0,
        }
    }
}

/// Any report that the device sends.
#[derive(Debug, Clone, Copy, PartialEq, Eq)]
pub enum Report {
    /// Normal keyboard hid report
    KeyboardReport(KeyboardReport),
    /// Mouse hid report
    MouseReport(MouseReport),
    /// Media keyboard report
    MediaKeyboardReport(MediaKeyboardReport),
    /// System control report
    SystemControlReport(SystemControlReport),
    /// Plover HID stenography chord report
    StenoReport(StenoReport),
}

impl AsInputReport for Report {
    open spec fn wire(&self) -> Seq<u8> {
        match self {
            Report::KeyboardReport(r) => r.wire(),
            Report::MouseReport(r) => r.wire(),
            Report::MediaKeyboardReport(r) => r.wire(),
            Report::SystemControlReport(r) => r.wire(),
            Report::StenoReport(r) => r.wire(),
        }
    }

    fn serialize(&self, buffer: &mut [u8]) -> (result: Result<usize, ReportOverflow>) {
        match self {
            Report::KeyboardReport(r) => r.serialize(buffer),
            Report::MouseReport(r) => r.serialize(buffer),
            Report::MediaKeyboardReport(r) => r.serialize(buffer),
            Report::SystemControlReport(r) => r.serialize(buffer),
            Report::StenoReport(r) => r.serialize(buffer),
        }
    }
}

/// Error when reading a HID report.
#[derive(Debug, Clone, Copy, PartialEq, Eq, Structural)]
pub enum ReadError {
    /// The given buffer was too small to read the received report.
    BufferOverflow,
    /// The endpoint is disabled.
    Disabled,
    /// The report was only partially read: the part of the buffer that this read has filled.
    Sync { start: usize, end: usize },
}

/// Errors returned by an endpoint.
#[derive(Debug, Clone, Copy, PartialEq, Eq, Structural)]
pub enum EndpointError {
    /// Either the packet to be written is too long or the buffer is too small to read it.
    BufferOverflow,
    /// The endpoint is disabled.
    Disabled,
}

/// Errors of sending and receiving reports.
#[derive(Debug, Clone, Copy, PartialEq, Eq, Structural)]
pub enum HidError {
    UsbReadError(ReadError),
    UsbEndpointError(EndpointError),
    ReportSerializeError,
    BleError,
}

/// A serialized keyboard report is the boot layout: the modifiers, the reserved byte and the six
/// key codes, every bit as the fields hold it, and nothing behind them is touched.
pub proof fn law_keyboard_bytes_are_the_fields(report: KeyboardReport, buffer: Seq<u8>)
    requires
        buffer.len() >= 8,
    ensures
        ({
            let after = overwrite(buffer, report.wire());
            &&& report.wire().len() == 8
            &&& after[0] == report.modifier
            &&& after[1] == report.reserved
            &&& forall|i: int| 0 <= i < 6 ==> after[2 + i] == #[trigger] report.keycodes@[i]
            &&& after.len() == buffer.len()
            &&& forall|i: int| 8 <= i < buffer.len() ==> #[trigger] after[i] == buffer[i]
        }),
{
}

/// Two keyboard reports that look the same on the wire press the same keys.
pub proof fn law_keyboard_wire_is_lossless(a: KeyboardReport, b: KeyboardReport)
    requires
        a.wire() == b.wire(),
    ensures
        a.modifier == b.modifier,
        a.reserved == b.reserved,
        a.keycodes@ == b.keycodes@,
{
    law_keyboard_bytes_are_the_fields(a, a.wire());
    law_keyboard_bytes_are_the_fields(b, b.wire());
    let w = a.wire();
    assert(overwrite(w, a.wire()) =~= w && overwrite(w, b.wire()) =~= w);
    assert forall|i: int| 0 <= i < 6 implies a.keycodes@[i] == b.keycodes@[i] by {
        assert(w[2 + i] == a.keycodes@[i]);
        assert(w[2 + i] == b.keycodes@[i]);
    }
    assert(a.keycodes@ =~= b.keycodes@);
}

/// The lock LEDs travel from the host only: they leave no trace in what is sent.
pub proof fn law_leds_are_not_sent(report: KeyboardReport, leds: u8)
    ensures
        (KeyboardReport { leds, ..report }).wire() == report.wire(),
{
}

/// A serialized mouse report is the buttons and the four axes, low byte first, where a negative
/// value counts from 65536 downwards; nothing behind them is touched.
pub proof fn law_mouse_bytes_are_the_fields(report: MouseReport, buffer: Seq<u8>)
    requires
        buffer.len() >= 9,
    ensures
        ({
            let after = overwrite(buffer, report.wire());
            &&& report.wire().len() == 9
            &&& after[0] == report.buttons
            &&& (after[1] + 256 * after[2] - report.x) % 65536 == 0
            &&& (after[3] + 256 * after[4] - report.y) % 65536 == 0
            &&& (after[5] + 256 * after[6] - report.wheel) % 65536 == 0
            &&& (after[7] + 256 * after[8] - report.pan) % 65536 == 0
            &&& after.len() == buffer.len()
            &&& forall|i: int| 9 <= i < buffer.len() ==> #[trigger] after[i] == buffer[i]
        }),
{
    crate::wire::law_le16_bytes_add_up(report.x as int);
    crate::wire::law_le16_bytes_add_up(report.y as int);
    crate::wire::law_le16_bytes_add_up(report.wheel as int);
    crate::wire::law_le16_bytes_add_up(report.pan as int);
    let after = overwrite(buffer, report.wire());
    assert(after[1] == le16(report.x as int)[0] && after[2] == le16(report.x as int)[1]);
    assert(after[3] == le16(report.y as int)[0] && after[4] == le16(report.y as int)[1]);
    assert(after[5] == le16(report.wheel as int)[0] && after[6] == le16(report.wheel as int)[1]);
    assert(after[7] == le16(report.pan as int)[0] && after[8] == le16(report.pan as int)[1]);
}

/// A serialized media report is its usage, low byte first, and a serialized system report its
/// usage; nothing behind them is touched.
pub proof fn law_usage_bytes_are_the_usage(
    media: MediaKeyboardReport,
    system: SystemControlReport,
    buffer: Seq<u8>,
)
    requires
        buffer.len() >= 2,
    ensures
        ({
            let after = overwrite(buffer, media.wire());
            &&& media.wire().len() == 2
            &&& after[0] + 256 * after[1] == media.usage_id
            &&& after.len() == buffer.len()
            &&& forall|i: int| 2 <= i < buffer.len() ==> #[trigger] after[i] == buffer[i]
        }),
        ({
            let after = overwrite(buffer, system.wire());
            &&& system.wire().len() == 1
            &&& after[0] == system.usage_id
            &&& after.len() == buffer.len()
            &&& forall|i: int| 1 <= i < buffer.len() ==> #[trigger] after[i] == buffer[i]
        }),
{
    crate::wire::law_le16_bytes_add_up(media.usage_id as int);
}

/// A serialized stenography report is the Plover report id and the eight bytes of the chord, every
/// bit as the report holds it, and nothing behind them is touched.
pub proof fn law_steno_bytes_are_the_chord(report: StenoReport, buffer: Seq<u8>)
    requires
        buffer.len() >= 9,
    ensures
        ({
            let after = overwrite(buffer, report.wire());
            &&& report.wire().len() == 9
            &&& after[0] == 0x50
            &&& forall|i: int| 0 <= i < 8 ==> after[1 + i] == #[trigger] report.keys@[i]
            &&& after.len() == buffer.len()
            &&& forall|i: int| 9 <= i < buffer.len() ==> #[trigger] after[i] == buffer[i]
        }),
{
}

/// A serialized vendor report is the 32 bytes of its input payload, and the output payload, which
/// travels from the host, leaves no trace in it.
pub proof fn law_vendor_bytes_are_the_payload(
    vial: ViaReport,
    rynk: RynkHidReport,
    buffer: Seq<u8>,
)
    requires
        buffer.len() >= 32,
    ensures
        vial.wire().len() == 32,
        rynk.wire().len() == 32,
        overwrite(buffer, vial.wire()).len() == buffer.len(),
        overwrite(buffer, rynk.wire()).len() == buffer.len(),
        forall|i: int|
            0 <= i < buffer.len() ==> #[trigger] overwrite(buffer, vial.wire())[i] == (if i < 32 {
                vial.input_data@[i]
            } else {
                buffer[i]
            }),
        forall|i: int|
            0 <= i < buffer.len() ==> #[trigger] overwrite(buffer, rynk.wire())[i] == (if i < 32 {
                rynk.input_data@[i]
            } else {
                buffer[i]
            }),
{
}

/// Any report is serialized in the bytes of the report that it holds.
pub proof fn law_report_bytes_are_those_of_its_kind(
    keyboard: KeyboardReport,
    mouse: MouseReport,
    media: MediaKeyboardReport,
    system: SystemControlReport,
    steno: StenoReport,
)
    ensures
        Report::KeyboardReport(keyboard).wire() == keyboard.wire(),
        Report::MouseReport(mouse).wire() == mouse.wire(),
        Report::MediaKeyboardReport(media).wire() == media.wire(),
        Report::SystemControlReport(system).wire() == system.wire(),
        Report::StenoReport(steno).wire() == steno.wire(),
{
}

} // verus!
