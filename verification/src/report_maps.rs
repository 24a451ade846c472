//! The report descriptors of the device: which fields every report carries, how wide they are and
//! what they mean to the host.

use vstd::prelude::*;

use crate::descriptor::{encode, DescriptorBuilder, Item};
use crate::descriptor::{
    COLLECTION_APPLICATION, COLLECTION_LOGICAL, COLLECTION_PHYSICAL, CONSTANT_VARIABLE_ABSOLUTE,
    DATA_ARRAY_ABSOLUTE, DATA_VARIABLE_ABSOLUTE, DATA_VARIABLE_RELATIVE,
};
use crate::hid::{
    BleCompositeReport, CompositeReport, CompositeReportType, KeyboardReport, RynkHidReport,
    StenoReport, ViaReport, PLOVER_HID_REPORT_ID,
};
use crate::hires::{RESOLUTION_MULTIPLIER_MAX, RESOLUTION_MULTIPLIER_REPORT_ID};

verus! {

/// Usage pages (HID Usage Tables).
pub const PAGE_GENERIC_DESKTOP: u16 = 0x01;

pub const PAGE_KEYBOARD: u16 = 0x07;

pub const PAGE_LEDS: u16 = 0x08;

pub const PAGE_BUTTON: u16 = 0x09;

pub const PAGE_ORDINAL: u16 = 0x0a;

pub const PAGE_CONSUMER: u16 = 0x0c;

/// The vendor page on which a Rynk host finds the device.
pub const PAGE_RYNK: u16 = 0xff14;

/// The vendor page that Plover looks for.
pub const PAGE_PLOVER: u16 = 0xff50;

/// The vendor page on which a Via host finds the device.
pub const PAGE_VIA: u16 = 0xff60;

/// Usages of the generic desktop page.
pub const USAGE_POINTER: u16 = 0x01;

pub const USAGE_MOUSE: u16 = 0x02;

pub const USAGE_KEYBOARD: u16 = 0x06;

pub const USAGE_X: u16 = 0x30;

pub const USAGE_Y: u16 = 0x31;

pub const USAGE_WHEEL: u16 = 0x38;

pub const USAGE_RESOLUTION_MULTIPLIER: u16 = 0x48;

pub const USAGE_SYSTEM_CONTROL: u16 = 0x80;

/// Usages of the consumer page.
pub const USAGE_CONSUMER_CONTROL: u16 = 0x01;

pub const USAGE_AC_PAN: u16 = 0x0238;

/// The usage of the Plover collection; behind the low byte of its page it spells `PLV`.
pub const USAGE_PLOVER: u16 = 0x4c56;

/// The range of a mouse axis.
pub const AXIS_MINIMUM: i32 = -32767;

pub const AXIS_MAXIMUM: i32 = 32767;

/// The boot keyboard: eight modifier bits, a reserved byte, five LED bits in an output report
/// that padding fills up to a byte, and six key codes.
pub open spec fn keyboard_items(report_id: Option<u8>) -> Seq<Item> {
    seq![
        Item::UsagePage(PAGE_GENERIC_DESKTOP),
        Item::Usage(USAGE_KEYBOARD),
        Item::Collection(COLLECTION_APPLICATION),
    ] + (match report_id {
        Some(id) => seq![Item::ReportId(id)],
        None => seq![],
    }) + modifier_items() + keyboard_led_items() + key_code_items()
}

/// The modifiers and the reserved byte of the keyboard.
pub open spec fn modifier_items() -> Seq<Item> {
    seq![
        Item::UsagePage(PAGE_KEYBOARD),
        Item::UsageMinimum(0xe0),
        Item::UsageMaximum(0xe7),
        Item::LogicalMinimum(0),
        Item::LogicalMaximum(1),
        Item::ReportSize(1),
        Item::ReportCount(8),
        Item::Input(DATA_VARIABLE_ABSOLUTE),
        Item::LogicalMinimum(0),
        Item::LogicalMaximum(255),
        Item::ReportSize(8),
        Item::ReportCount(1),
        Item::Input(CONSTANT_VARIABLE_ABSOLUTE),
    ]
}

/// The output report of the keyboard.
pub open spec fn keyboard_led_items() -> Seq<Item> {
    seq![
        Item::UsagePage(PAGE_LEDS),
        Item::UsageMinimum(0x01),
        Item::UsageMaximum(0x05),
        Item::LogicalMaximum(1),
        Item::ReportSize(1),
        Item::ReportCount(5),
        Item::Output(DATA_VARIABLE_ABSOLUTE),
        Item::ReportCount(3),
        Item::Output(CONSTANT_VARIABLE_ABSOLUTE),
    ]
}

/// The key codes, and the end of the keyboard.
pub open spec fn key_code_items() -> Seq<Item> {
    seq![
        Item::UsagePage(PAGE_KEYBOARD),
        Item::UsageMinimum(0x00),
        Item::UsageMaximum(0xdd),
        Item::LogicalMaximum(255),
        Item::ReportSize(8),
        Item::ReportCount(6),
        Item::Input(DATA_ARRAY_ABSOLUTE),
        Item::EndCollection,
    ]
}

/// The start of the mouse: eight buttons and the X and Y axes, with both collections left open.
/// The logical minimum of the buttons is only written where the items before have not set it.
pub open spec fn pointer_items(set_logical_minimum: bool) -> Seq<Item> {
    seq![
        Item::UsagePage(PAGE_GENERIC_DESKTOP),
        Item::Usage(USAGE_MOUSE),
        Item::Collection(COLLECTION_APPLICATION),
        Item::Usage(USAGE_POINTER),
        Item::Collection(COLLECTION_PHYSICAL),
        Item::ReportId(CompositeReportType::Mouse.spec_id()),
        Item::UsagePage(PAGE_BUTTON),
        Item::UsageMinimum(1),
        Item::UsageMaximum(8),
    ] + (if set_logical_minimum {
        seq![Item::LogicalMinimum(0)]
    } else {
        seq![]
    }) + seq![
        Item::LogicalMaximum(1),
        Item::ReportSize(1),
        Item::ReportCount(8),
        Item::Input(DATA_VARIABLE_ABSOLUTE),
        Item::UsagePage(PAGE_GENERIC_DESKTOP),
        Item::Usage(USAGE_X),
        Item::LogicalMinimum(AXIS_MINIMUM),
        Item::LogicalMaximum(AXIS_MAXIMUM),
        Item::ReportSize(16),
        Item::ReportCount(1),
        Item::Input(DATA_VARIABLE_RELATIVE),
        Item::Usage(USAGE_Y),
        Item::Input(DATA_VARIABLE_RELATIVE),
    ]
}

/// The scrolling axes of a mouse that only scrolls in detents, and the end of its collections.
pub open spec fn detent_scroll_items() -> Seq<Item> {
    seq![
        Item::Usage(USAGE_WHEEL),
        Item::Input(DATA_VARIABLE_RELATIVE),
        Item::UsagePage(PAGE_CONSUMER),
        Item::Usage(USAGE_AC_PAN),
        Item::Input(DATA_VARIABLE_RELATIVE),
        Item::EndCollection,
        Item::EndCollection,
    ]
}

/// The scrolling axes of a mouse that negotiates its resolution, and the end of its collections.
///
/// Wheel and AC Pan each sit in a logical collection together with a Resolution Multiplier
/// feature. The multiplier applies to the controls sharing its logical collection, so a bare
/// feature in the physical collection would read as applying to X and Y too. Each feature field
/// has report count 1, and the physical range, a global item, is reset behind it.
pub open spec fn hires_scroll_items() -> Seq<Item> {
    hires_wheel_items() + hires_pan_items() + seq![Item::EndCollection, Item::EndCollection]
}

/// The wheel and its multiplier.
pub open spec fn hires_wheel_items() -> Seq<Item> {
    seq![
        Item::UsagePage(PAGE_GENERIC_DESKTOP),
        Item::Usage(USAGE_WHEEL),
        Item::Collection(COLLECTION_LOGICAL),
        Item::Usage(USAGE_RESOLUTION_MULTIPLIER),
        Item::ReportId(RESOLUTION_MULTIPLIER_REPORT_ID),
        Item::LogicalMinimum(0),
        Item::LogicalMaximum(1),
        Item::PhysicalMinimum(1),
        Item::PhysicalMaximum(RESOLUTION_MULTIPLIER_MAX),
        Item::ReportSize(8),
        Item::Feature(DATA_VARIABLE_ABSOLUTE),
        Item::PhysicalMinimum(0),
        Item::PhysicalMaximum(0),
        Item::Usage(USAGE_WHEEL),
        Item::ReportId(CompositeReportType::Mouse.spec_id()),
        Item::LogicalMinimum(AXIS_MINIMUM),
        Item::LogicalMaximum(AXIS_MAXIMUM),
        Item::ReportSize(16),
        Item::Input(DATA_VARIABLE_RELATIVE),
        Item::EndCollection,
    ]
}

/// The horizontal wheel and its multiplier.
pub open spec fn hires_pan_items() -> Seq<Item> {
    seq![
        Item::UsagePage(PAGE_CONSUMER),
        Item::Usage(USAGE_AC_PAN),
        Item::Collection(COLLECTION_LOGICAL),
        Item::UsagePage(PAGE_GENERIC_DESKTOP),
        Item::Usage(USAGE_RESOLUTION_MULTIPLIER),
        Item::ReportId(RESOLUTION_MULTIPLIER_REPORT_ID),
        Item::LogicalMinimum(0),
        Item::LogicalMaximum(1),
        Item::PhysicalMinimum(1),
        Item::PhysicalMaximum(RESOLUTION_MULTIPLIER_MAX),
        Item::ReportSize(8),
        Item::Feature(DATA_VARIABLE_ABSOLUTE),
        Item::PhysicalMinimum(0),
        Item::PhysicalMaximum(0),
        Item::UsagePage(PAGE_CONSUMER),
        Item::Usage(USAGE_AC_PAN),
        Item::ReportId(CompositeReportType::Mouse.spec_id()),
        Item::LogicalMinimum(AXIS_MINIMUM),
        Item::LogicalMaximum(AXIS_MAXIMUM),
        Item::ReportSize(16),
        Item::Input(DATA_VARIABLE_RELATIVE),
        Item::EndCollection,
    ]
}

/// The media keys: one consumer usage in two bytes.
pub open spec fn media_items() -> Seq<Item> {
    seq![
        Item::UsagePage(PAGE_CONSUMER),
        Item::Usage(USAGE_CONSUMER_CONTROL),
        Item::Collection(COLLECTION_APPLICATION),
        Item::ReportId(CompositeReportType::Media.spec_id()),
        Item::UsagePage(PAGE_CONSUMER),
        Item::UsageMinimum(0x00),
        Item::UsageMaximum(0x514),
        Item::LogicalMinimum(0),
        Item::LogicalMaximum(65535),
        Item::Input(DATA_ARRAY_ABSOLUTE),
        Item::EndCollection,
    ]
}

/// The system control keys: one usage in one byte.
pub open spec fn system_items() -> Seq<Item> {
    seq![
        Item::UsagePage(PAGE_GENERIC_DESKTOP),
        Item::Usage(USAGE_SYSTEM_CONTROL),
        Item::Collection(COLLECTION_APPLICATION),
        Item::ReportId(CompositeReportType::System.spec_id()),
        Item::UsageMinimum(0x01),
        Item::UsageMaximum(0xb7),
        Item::LogicalMinimum(1),
        Item::LogicalMaximum(255),
        Item::ReportSize(8),
        Item::Input(DATA_ARRAY_ABSOLUTE),
        Item::EndCollection,
    ]
}

/// The composite report map: mouse, media and system reports.
pub open spec fn composite_items(hires_scroll: bool) -> Seq<Item> {
    pointer_items(true) + (if hires_scroll {
        hires_scroll_items()
    } else {
        detent_scroll_items()
    }) + media_items() + system_items()
}

/// The BLE report map: all reports of the device behind report ids.
pub open spec fn ble_items() -> Seq<Item> {
    keyboard_items(Some(CompositeReportType::Keyboard.spec_id())) + pointer_items(false)
        + detent_scroll_items() + media_items() + system_items()
}

/// A vendor report pair of 32 bytes in either direction.
pub open spec fn vendor_items(page: u16) -> Seq<Item> {
    seq![
        Item::UsagePage(page),
        Item::Usage(0x61),
        Item::Collection(COLLECTION_APPLICATION),
        Item::Usage(0x62),
        Item::LogicalMinimum(0),
        Item::LogicalMaximum(255),
        Item::ReportSize(8),
        Item::ReportCount(32),
        Item::Input(DATA_VARIABLE_ABSOLUTE),
        Item::Usage(0x63),
        Item::LogicalMinimum(0),
        Item::Output(DATA_VARIABLE_ABSOLUTE),
        Item::EndCollection,
    ]
}

/// The Plover report: a logical collection of 64 single-bit ordinal usages.
pub open spec fn steno_items() -> Seq<Item> {
    seq![
        Item::UsagePage(PAGE_PLOVER),
        Item::Usage(USAGE_PLOVER),
        Item::Collection(COLLECTION_LOGICAL),
        Item::UsagePage(PAGE_ORDINAL),
        Item::UsageMinimum(0x00),
        Item::UsageMaximum(0x3f),
        Item::ReportId(PLOVER_HID_REPORT_ID),
        Item::LogicalMinimum(0),
        Item::LogicalMaximum(1),
        Item::ReportSize(1),
        Item::ReportCount(64),
        Item::Input(DATA_VARIABLE_ABSOLUTE),
        Item::EndCollection,
    ]
}

/// Writes [`keyboard_items`].
fn put_keyboard(b: &mut DescriptorBuilder, report_id: Option<u8>)
    requires
        old(b).wf(),
    ensures
        final(b).wf(),
        final(b)@ == old(b)@ + keyboard_items(report_id),
{
    b.item(Item::UsagePage(PAGE_GENERIC_DESKTOP));
    b.item(Item::Usage(USAGE_KEYBOARD));
    b.item(Item::Collection(COLLECTION_APPLICATION));
    if let Some(id) = report_id {
        b.item(Item::ReportId(id));
    }
    b.item(Item::UsagePage(PAGE_KEYBOARD));
    b.item(Item::UsageMinimum(0xe0));
    b.item(Item::UsageMaximum(0xe7));
    b.item(Item::LogicalMinimum(0));
    b.item(Item::LogicalMaximum(1));
    b.item(Item::ReportSize(1));
    b.item(Item::ReportCount(8));
    b.item(Item::Input(DATA_VARIABLE_ABSOLUTE));
    b.item(Item::LogicalMinimum(0));
    b.item(Item::LogicalMaximum(255));
    b.item(Item::ReportSize(8));
    b.item(Item::ReportCount(1));
    b.item(Item::Input(CONSTANT_VARIABLE_ABSOLUTE));
    b.item(Item::UsagePage(PAGE_LEDS));
    b.item(Item::UsageMinimum(0x01));
    b.item(Item::UsageMaximum(0x05));
    b.item(Item::LogicalMaximum(1));
    b.item(Item::ReportSize(1));
    b.item(Item::ReportCount(5));
    b.item(Item::Output(DATA_VARIABLE_ABSOLUTE));
    b.item(Item::ReportCount(3));
    b.item(Item::Output(CONSTANT_VARIABLE_ABSOLUTE));
    b.item(Item::UsagePage(PAGE_KEYBOARD));
    b.item(Item::UsageMinimum(0x00));
    b.item(Item::UsageMaximum(0xdd));
    b.item(Item::LogicalMaximum(255));
    b.item(Item::ReportSize(8));
    b.item(Item::ReportCount(6));
    b.item(Item::Input(DATA_ARRAY_ABSOLUTE));
    b.item(Item::EndCollection);
    assert(b@ =~= old(b)@ + keyboard_items(report_id));
}

/// Writes [`pointer_items`].
fn put_pointer(b: &mut DescriptorBuilder, set_logical_minimum: bool)
    requires
        old(b).wf(),
    ensures
        final(b).wf(),
        final(b)@ == old(b)@ + pointer_items(set_logical_minimum),
{
    b.item(Item::UsagePage(PAGE_GENERIC_DESKTOP));
    b.item(Item::Usage(USAGE_MOUSE));
    b.item(Item::Collection(COLLECTION_APPLICATION));
    b.item(Item::Usage(USAGE_POINTER));
    b.item(Item::Collection(COLLECTION_PHYSICAL));
    b.item(Item::ReportId(CompositeReportType::Mouse.id()));
    b.item(Item::UsagePage(PAGE_BUTTON));
    b.item(Item::UsageMinimum(1));
    b.item(Item::UsageMaximum(8));
    if set_logical_minimum {
        b.item(Item::LogicalMinimum(0));
    }
    b.item(Item::LogicalMaximum(1));
    b.item(Item::ReportSize(1));
    b.item(Item::ReportCount(8));
    b.item(Item::Input(DATA_VARIABLE_ABSOLUTE));
    b.item(Item::UsagePage(PAGE_GENERIC_DESKTOP));
    b.item(Item::Usage(USAGE_X));
    b.item(Item::LogicalMinimum(AXIS_MINIMUM));
    b.item(Item::LogicalMaximum(AXIS_MAXIMUM));
    b.item(Item::ReportSize(16));
    b.item(Item::ReportCount(1));
    b.item(Item::Input(DATA_VARIABLE_RELATIVE));
    b.item(Item::Usage(USAGE_Y));
    b.item(Item::Input(DATA_VARIABLE_RELATIVE));
    assert(b@ =~= old(b)@ + pointer_items(set_logical_minimum));
}

/// Writes [`detent_scroll_items`].
fn put_detent_scroll(b: &mut DescriptorBuilder)
    requires
        old(b).wf(),
    ensures
        final(b).wf(),
        final(b)@ == old(b)@ + detent_scroll_items(),
{
    b.item(Item::Usage(USAGE_WHEEL));
    b.item(Item::Input(DATA_VARIABLE_RELATIVE));
    b.item(Item::UsagePage(PAGE_CONSUMER));
    b.item(Item::Usage(USAGE_AC_PAN));
    b.item(Item::Input(DATA_VARIABLE_RELATIVE));
    b.item(Item::EndCollection);
    b.item(Item::EndCollection);
    assert(b@ =~= old(b)@ + detent_scroll_items());
}

/// Writes [`hires_wheel_items`].
fn put_hires_wheel(b: &mut DescriptorBuilder)
    requires
        old(b).wf(),
    ensures
        final(b).wf(),
        final(b)@ == old(b)@ + hires_wheel_items(),
{
    b.item(Item::UsagePage(PAGE_GENERIC_DESKTOP));
    b.item(Item::Usage(USAGE_WHEEL));
    b.item(Item::Collection(COLLECTION_LOGICAL));
    b.item(Item::Usage(USAGE_RESOLUTION_MULTIPLIER));
    b.item(Item::ReportId(RESOLUTION_MULTIPLIER_REPORT_ID));
    b.item(Item::LogicalMinimum(0));
    b.item(Item::LogicalMaximum(1));
    b.item(Item::PhysicalMinimum(1));
    b.item(Item::PhysicalMaximum(RESOLUTION_MULTIPLIER_MAX));
    b.item(Item::ReportSize(8));
    b.item(Item::Feature(DATA_VARIABLE_ABSOLUTE));
    b.item(Item::PhysicalMinimum(0));
    b.item(Item::PhysicalMaximum(0));
    b.item(Item::Usage(USAGE_WHEEL));
    b.item(Item::ReportId(CompositeReportType::Mouse.id()));
    b.item(Item::LogicalMinimum(AXIS_MINIMUM));
    b.item(Item::LogicalMaximum(AXIS_MAXIMUM));
    b.item(Item::ReportSize(16));
    b.item(Item::Input(DATA_VARIABLE_RELATIVE));
    b.item(Item::EndCollection);
    assert(b@ =~= old(b)@ + hires_wheel_items());
}

/// Writes [`hires_pan_items`].
fn put_hires_pan(b: &mut DescriptorBuilder)
    requires
        old(b).wf(),
    ensures
        final(b).wf(),
        final(b)@ == old(b)@ + hires_pan_items(),
{
    b.item(Item::UsagePage(PAGE_CONSUMER));
    b.item(Item::Usage(USAGE_AC_PAN));
    b.item(Item::Collection(COLLECTION_LOGICAL));
    b.item(Item::UsagePage(PAGE_GENERIC_DESKTOP));
    b.item(Item::Usage(USAGE_RESOLUTION_MULTIPLIER));
    b.item(Item::ReportId(RESOLUTION_MULTIPLIER_REPORT_ID));
    b.item(Item::LogicalMinimum(0));
    b.item(Item::LogicalMaximum(1));
    b.item(Item::PhysicalMinimum(1));
    b.item(Item::PhysicalMaximum(RESOLUTION_MULTIPLIER_MAX));
    b.item(Item::ReportSize(8));
    b.item(Item::Feature(DATA_VARIABLE_ABSOLUTE));
    b.item(Item::PhysicalMinimum(0));
    b.item(Item::PhysicalMaximum(0));
    b.item(Item::UsagePage(PAGE_CONSUMER));
    b.item(Item::Usage(USAGE_AC_PAN));
    b.item(Item::ReportId(CompositeReportType::Mouse.id()));
    b.item(Item::LogicalMinimum(AXIS_MINIMUM));
    b.item(Item::LogicalMaximum(AXIS_MAXIMUM));
    b.item(Item::ReportSize(16));
    b.item(Item::Input(DATA_VARIABLE_RELATIVE));
    b.item(Item::EndCollection);
    assert(b@ =~= old(b)@ + hires_pan_items());
}

/// Writes [`hires_scroll_items`].
fn put_hires_scroll(b: &mut DescriptorBuilder)
    requires
        old(b).wf(),
    ensures
        final(b).wf(),
        final(b)@ == old(b)@ + hires_scroll_items(),
{
    put_hires_wheel(b);
    put_hires_pan(b);
    b.item(Item::EndCollection);
    b.item(Item::EndCollection);
    assert(b@ =~= old(b)@ + hires_scroll_items());
}

/// Writes [`media_items`].
fn put_media(b: &mut DescriptorBuilder)
    requires
        old(b).wf(),
    ensures
        final(b).wf(),
        final(b)@ == old(b)@ + media_items(),
{
    b.item(Item::UsagePage(PAGE_CONSUMER));
    b.item(Item::Usage(USAGE_CONSUMER_CONTROL));
    b.item(Item::Collection(COLLECTION_APPLICATION));
    b.item(Item::ReportId(CompositeReportType::Media.id()));
    b.item(Item::UsagePage(PAGE_CONSUMER));
    b.item(Item::UsageMinimum(0x00));
    b.item(Item::UsageMaximum(0x514));
    b.item(Item::LogicalMinimum(0));
    b.item(Item::LogicalMaximum(65535));
    b.item(Item::Input(DATA_ARRAY_ABSOLUTE));
    b.item(Item::EndCollection);
    assert(b@ =~= old(b)@ + media_items());
}

/// Writes [`system_items`].
fn put_system(b: &mut DescriptorBuilder)
    requires
        old(b).wf(),
    ensures
        final(b).wf(),
        final(b)@ == old(b)@ + system_items(),
{
    b.item(Item::UsagePage(PAGE_GENERIC_DESKTOP));
    b.item(Item::Usage(USAGE_SYSTEM_CONTROL));
    b.item(Item::Collection(COLLECTION_APPLICATION));
    b.item(Item::ReportId(CompositeReportType::System.id()));
    b.item(Item::UsageMinimum(0x01));
    b.item(Item::UsageMaximum(0xb7));
    b.item(Item::LogicalMinimum(1));
    b.item(Item::LogicalMaximum(255));
    b.item(Item::ReportSize(8));
    b.item(Item::Input(DATA_ARRAY_ABSOLUTE));
    b.item(Item::EndCollection);
    assert(b@ =~= old(b)@ + system_items());
}

/// Writes [`steno_items`].
fn put_steno(b: &mut DescriptorBuilder)
    requires
        old(b).wf(),
    ensures
        final(b).wf(),
        final(b)@ == old(b)@ + steno_items(),
{
    b.item(Item::UsagePage(PAGE_PLOVER));
    b.item(Item::Usage(USAGE_PLOVER));
    b.item(Item::Collection(COLLECTION_LOGICAL));
    b.item(Item::UsagePage(PAGE_ORDINAL));
    b.item(Item::UsageMinimum(0x00));
    b.item(Item::UsageMaximum(0x3f));
    b.item(Item::ReportId(PLOVER_HID_REPORT_ID));
    b.item(Item::LogicalMinimum(0));
    b.item(Item::LogicalMaximum(1));
    b.item(Item::ReportSize(1));
    b.item(Item::ReportCount(64));
    b.item(Item::Input(DATA_VARIABLE_ABSOLUTE));
    b.item(Item::EndCollection);
    assert(b@ =~= old(b)@ + steno_items());
}

/// Writes [`vendor_items`].
fn put_vendor(b: &mut DescriptorBuilder, page: u16)
    requires
        old(b).wf(),
    ensures
        final(b).wf(),
        final(b)@ == old(b)@ + vendor_items(page),
{
    b.item(Item::UsagePage(page));
    b.item(Item::Usage(0x61));
    b.item(Item::Collection(COLLECTION_APPLICATION));
    b.item(Item::Usage(0x62));
    b.item(Item::LogicalMinimum(0));
    b.item(Item::LogicalMaximum(255));
    b.item(Item::ReportSize(8));
    b.item(Item::ReportCount(32));
    b.item(Item::Input(DATA_VARIABLE_ABSOLUTE));
    b.item(Item::Usage(0x63));
    b.item(Item::LogicalMinimum(0));
    b.item(Item::Output(DATA_VARIABLE_ABSOLUTE));
    b.item(Item::EndCollection);
    assert(b@ =~= old(b)@ + vendor_items(page));
}

impl KeyboardReport {
    /// The report descriptor of the keyboard interface.
    pub fn desc() -> (bytes: Vec<u8>)
        ensures
            bytes@ == encode(keyboard_items(None)),
    {
        let mut b = DescriptorBuilder::new();
        put_keyboard(&mut b, None);
        assert(b@ =~= keyboard_items(None));
        b.finish()
    }
}

impl ViaReport {
    /// The report descriptor of the Via interface.
    pub fn desc() -> (bytes: Vec<u8>)
        ensures
            bytes@ == encode(vendor_items(PAGE_VIA)),
    {
        let mut b = DescriptorBuilder::new();
        put_vendor(&mut b, PAGE_VIA);
        assert(b@ =~= vendor_items(PAGE_VIA));
        b.finish()
    }
}

impl RynkHidReport {
    /// The report descriptor of the Rynk interface.
    pub fn desc() -> (bytes: Vec<u8>)
        ensures
            bytes@ == encode(vendor_items(PAGE_RYNK)),
    {
        let mut b = DescriptorBuilder::new();
        put_vendor(&mut b, PAGE_RYNK);
        assert(b@ =~= vendor_items(PAGE_RYNK));
        b.finish()
    }
}

impl StenoReport {
    /// The report descriptor of the stenography interface.
    pub fn desc() -> (bytes: Vec<u8>)
        ensures
            bytes@ == encode(steno_items()),
    {
        let mut b = DescriptorBuilder::new();
        put_steno(&mut b);
        assert(b@ =~= steno_items());
        b.finish()
    }
}

impl CompositeReport {
    /// The report descriptor of the composite interface, in a build with or without hi-res
    /// scrolling.
    pub fn desc(hires_scroll: bool) -> (bytes: Vec<u8>)
        ensures
            bytes@ == encode(composite_items(hires_scroll)),
    {
        let mut b = DescriptorBuilder::new();
        put_pointer(&mut b, true);
        if hires_scroll {
            put_hires_scroll(&mut b);
        } else {
            put_detent_scroll(&mut b);
        }
        put_media(&mut b);
        put_system(&mut b);
        assert(b@ =~= composite_items(hires_scroll));
        b.finish()
    }
}

impl BleCompositeReport {
    /// The report map of the BLE HID service.
    pub fn desc() -> (bytes: Vec<u8>)
        ensures
            bytes@ == encode(ble_items()),
    {
        let mut b = DescriptorBuilder::new();
        put_keyboard(&mut b, Some(CompositeReportType::Keyboard.id()));
        put_pointer(&mut b, false);
        put_detent_scroll(&mut b);
        put_media(&mut b);
        put_system(&mut b);
        assert(b@ =~= ble_items());
        b.finish()
    }
}

} // verus!
