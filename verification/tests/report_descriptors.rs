use rmk_hid::descriptor::{DescriptorBuilder, Item};
use rmk_hid::hid::{
    BleCompositeReport, CompositeReport, KeyboardReport, MouseReport, RynkHidReport, StenoReport,
    ViaReport, MOUSE_REPORT_SIZE,
};
use rmk_hid::hires::{RESOLUTION_MULTIPLIER_MAX, RESOLUTION_MULTIPLIER_REPORT_ID};
use rmk_hid::wire::AsInputReport;

fn contains(haystack: &[u8], needle: &[u8]) -> bool {
    haystack.windows(needle.len()).any(|w| w == needle)
}

fn find(haystack: &[u8], needle: &[u8]) -> Option<usize> {
    haystack.windows(needle.len()).position(|w| w == needle)
}

fn count(haystack: &[u8], needle: &[u8]) -> usize {
    haystack.windows(needle.len()).filter(|w| *w == needle).count()
}

/// The prefix byte, the data and the number of bytes of each item.
fn items(desc: &[u8]) -> Vec<(u8, Vec<u8>)> {
    let mut list = Vec::new();
    let mut at = 0;
    while at < desc.len() {
        let width = match desc[at] & 3 {
            3 => 4,
            w => w as usize,
        };
        list.push((desc[at] & !3, desc[at + 1..at + 1 + width].to_vec()));
        at += 1 + width;
    }
    list
}

/// How many bits of the given main items belong to a report id.
fn bits(desc: &[u8], main: u8, report_id: u8) -> u32 {
    let (mut id, mut size, mut number, mut total) = (0u8, 0u32, 0u32, 0u32);
    for (tag, data) in items(desc) {
        match tag {
            0x84 => id = data[0],
            0x74 => size = data[0] as u32,
            0x94 => number = data[0] as u32,
            t if t == main && id == report_id => total += size * number,
            _ => {}
        }
    }
    total
}

#[test]
fn descriptor_advertises_plover_identifiers() {
    let desc = StenoReport::desc();
    assert!(contains(&desc, &[0x06, 0x50, 0xff]), "missing UsagePage 0xFF50");
    assert!(contains(&desc, &[0x0a, 0x56, 0x4c]), "missing Usage 0x4C56");
    assert!(contains(&desc, &[0xa1, 0x02]), "missing Logical collection");
    assert!(contains(&desc, &[0x85, 0x50]), "missing ReportID 0x50");
    assert!(contains(&desc, &[0x75, 0x01]), "missing ReportSize 1");
    assert!(contains(&desc, &[0x95, 0x40]), "missing ReportCount 64");
    assert!(contains(&desc, &[0x05, 0x0a]), "missing Ordinal UsagePage");
    assert!(contains(&desc, &[0x19, 0x00]), "missing UsageMin 0");
    assert!(contains(&desc, &[0x29, 0x3f]), "missing UsageMax 63");
}

/// The report map tells the host how to parse the axes and `serialize` writes them.
#[test]
fn mouse_report_matches_composite_descriptor() {
    for hires_scroll in [false, true] {
        let desc = CompositeReport::desc(hires_scroll);
        let start = find(&desc, &[0x85, 0x02]).expect("missing mouse ReportID 2");
        let end = find(&desc, &[0x85, 0x03]).expect("missing consumer ReportID 3");
        let mouse = &desc[start..end];
        assert!(
            find(mouse, &[0x17, 0x01, 0x80, 0xff, 0xff]).is_some(),
            "missing LogicalMinimum -32767"
        );
        assert!(
            find(mouse, &[0x26, 0xff, 0x7f]).is_some(),
            "missing LogicalMaximum 32767"
        );
        assert!(find(mouse, &[0x75, 0x10]).is_some(), "missing ReportSize 16");
        assert!(find(mouse, &[0x25, 0x7f]).is_none(), "an axis is still 8-bit");
    }

    // A delta past the old 8-bit ceiling survives the wire encoding.
    let report = MouseReport {
        buttons: 0x03,
        x: 300,
        y: -300,
        wheel: 1,
        pan: -1,
    };
    let mut buf = [0u8; MOUSE_REPORT_SIZE];
    assert_eq!(report.serialize(&mut buf).unwrap(), MOUSE_REPORT_SIZE);
    assert_eq!(buf, [0x03, 0x2c, 0x01, 0xd4, 0xfe, 0x01, 0x00, 0xff, 0xff]);
}

/// The BLE service hardcodes the length of the report map, and the report ids must match
/// `CompositeReportType`.
#[test]
fn ble_report_map_matches_service_definition() {
    let desc = BleCompositeReport::desc();
    assert_eq!(desc.len(), 177, "update HidService's report_map size on change");
    let keyboard = find(&desc, &[0x09, 0x06]).expect("missing Usage Keyboard");
    for report_id in 1u8..=4 {
        let id = find(&desc, &[0x85, report_id])
            .unwrap_or_else(|| panic!("missing ReportID {report_id}"));
        if report_id == 0x01 {
            assert!(keyboard < id, "keyboard collection must own ReportID 1");
        }
    }
}

/// Pins the default descriptor byte-for-byte: hosts cache descriptors per VID/PID, so an
/// accidental change here is not something a user can clear by replugging.
#[test]
fn composite_descriptor_bytes_are_pinned() {
    let expected: [u8; 110] = [
        0x05, 0x01, 0x09, 0x02, 0xa1, 0x01, 0x09, 0x01, 0xa1, 0x00, 0x85, 0x02, 0x05, 0x09, 0x19, 0x01, 0x29, 0x08,
        0x15, 0x00, 0x25, 0x01, 0x75, 0x01, 0x95, 0x08, 0x81, 0x02, 0x05, 0x01, 0x09, 0x30, 0x17, 0x01, 0x80, 0xff,
        0xff, 0x26, 0xff, 0x7f, 0x75, 0x10, 0x95, 0x01, 0x81, 0x06, 0x09, 0x31, 0x81, 0x06, 0x09, 0x38, 0x81, 0x06,
        0x05, 0x0c, 0x0a, 0x38, 0x02, 0x81, 0x06, 0xc0, 0xc0, 0x05, 0x0c, 0x09, 0x01, 0xa1, 0x01, 0x85, 0x03, 0x05,
        0x0c, 0x19, 0x00, 0x2a, 0x14, 0x05, 0x15, 0x00, 0x27, 0xff, 0xff, 0x00, 0x00, 0x81, 0x00, 0xc0, 0x05, 0x01,
        0x09, 0x80, 0xa1, 0x01, 0x85, 0x04, 0x19, 0x01, 0x29, 0xb7, 0x15, 0x01, 0x26, 0xff, 0x00, 0x75, 0x08, 0x81,
        0x00, 0xc0,
    ];
    assert_eq!(CompositeReport::desc(false), expected);
}

/// The structure a host looks for. The physical range is spelled from
/// `RESOLUTION_MULTIPLIER_MAX`, the value the producers scale by.
#[test]
fn composite_descriptor_declares_two_resolution_multipliers() {
    let desc = CompositeReport::desc(true);

    assert_eq!(count(&desc, &[0xa1, 0x02]), 2, "one logical collection per axis");
    assert_eq!(count(&desc, &[0x09, 0x48]), 2, "Resolution Multiplier usages");
    assert_eq!(count(&desc, &[0xb1, 0x02]), 2, "feature items");
    assert_eq!(
        count(&desc, &[0x85, RESOLUTION_MULTIPLIER_REPORT_ID]),
        2,
        "both features share the dedicated report id"
    );
    assert_eq!(
        count(&desc, &[0x35, 0x01, 0x45, RESOLUTION_MULTIPLIER_MAX]),
        2,
        "physical range must equal RESOLUTION_MULTIPLIER_MAX"
    );
    // Physical range is a global item: leaving it set would apply it to the inputs that follow.
    assert_eq!(count(&desc, &[0x35, 0x00, 0x45, 0x00]), 2, "physical range reset");

    // The mouse input report keeps its own id, and the media/system reports are untouched.
    assert!(count(&desc, &[0x85, 0x02]) >= 2, "mouse report id re-emitted per input");
    assert_eq!(count(&desc, &[0x85, 0x03]), 1);
    assert_eq!(count(&desc, &[0x85, 0x04]), 1);
}

/// Pins the hi-res descriptor byte-for-byte: counting items cannot prove one sits in the right
/// collection or report.
#[test]
fn hid_composite_descriptor_bytes_are_pinned() {
    let expected: [u8; 191] = [
        0x05, 0x01, 0x09, 0x02, 0xa1, 0x01, 0x09, 0x01, 0xa1, 0x00, 0x85, 0x02, 0x05, 0x09, 0x19, 0x01, 0x29, 0x08,
        0x15, 0x00, 0x25, 0x01, 0x75, 0x01, 0x95, 0x08, 0x81, 0x02, 0x05, 0x01, 0x09, 0x30, 0x17, 0x01, 0x80, 0xff,
        0xff, 0x26, 0xff, 0x7f, 0x75, 0x10, 0x95, 0x01, 0x81, 0x06, 0x09, 0x31, 0x81, 0x06, 0x05, 0x01, 0x09, 0x38,
        0xa1, 0x02, 0x09, 0x48, 0x85, 0x05, 0x15, 0x00, 0x25, 0x01, 0x35, 0x01, 0x45, 0x78, 0x75, 0x08, 0xb1, 0x02,
        0x35, 0x00, 0x45, 0x00, 0x09, 0x38, 0x85, 0x02, 0x17, 0x01, 0x80, 0xff, 0xff, 0x26, 0xff, 0x7f, 0x75, 0x10,
        0x81, 0x06, 0xc0, 0x05, 0x0c, 0x0a, 0x38, 0x02, 0xa1, 0x02, 0x05, 0x01, 0x09, 0x48, 0x85, 0x05, 0x15, 0x00,
        0x25, 0x01, 0x35, 0x01, 0x45, 0x78, 0x75, 0x08, 0xb1, 0x02, 0x35, 0x00, 0x45, 0x00, 0x05, 0x0c, 0x0a, 0x38,
        0x02, 0x85, 0x02, 0x17, 0x01, 0x80, 0xff, 0xff, 0x26, 0xff, 0x7f, 0x75, 0x10, 0x81, 0x06, 0xc0, 0xc0, 0xc0,
        0x05, 0x0c, 0x09, 0x01, 0xa1, 0x01, 0x85, 0x03, 0x05, 0x0c, 0x19, 0x00, 0x2a, 0x14, 0x05, 0x15, 0x00, 0x27,
        0xff, 0xff, 0x00, 0x00, 0x81, 0x00, 0xc0, 0x05, 0x01, 0x09, 0x80, 0xa1, 0x01, 0x85, 0x04, 0x19, 0x01, 0x29,
        0xb7, 0x15, 0x01, 0x26, 0xff, 0x00, 0x75, 0x08, 0x81, 0x00, 0xc0,
    ];
    assert_eq!(CompositeReport::desc(true), expected);
}

/// A host associates the multiplier with the controls in its logical collection, but feature
/// before input is the layout every host is tested against, so keep it.
#[test]
fn multiplier_feature_precedes_its_input() {
    let desc = CompositeReport::desc(true);
    let mut from = 0;
    for _ in 0..2 {
        let collection = desc[from..]
            .windows(2)
            .position(|w| w == [0xa1, 0x02])
            .expect("collection")
            + from;
        let feature = desc[collection..]
            .windows(2)
            .position(|w| w == [0xb1, 0x02])
            .expect("feature")
            + collection;
        let input = desc[collection..]
            .windows(2)
            .position(|w| w == [0x81, 0x06])
            .expect("relative input")
            + collection;
        assert!(feature < input, "feature before input inside the collection");
        from = collection + 2;
    }
}

#[test]
fn keyboard_descriptor_bytes_are_pinned() {
    let expected: [u8; 67] = [
        0x05, 0x01, 0x09, 0x06, 0xa1, 0x01, 0x05, 0x07, 0x19, 0xe0, 0x29, 0xe7, 0x15, 0x00, 0x25, 0x01, 0x75, 0x01,
        0x95, 0x08, 0x81, 0x02, 0x15, 0x00, 0x26, 0xff, 0x00, 0x75, 0x08, 0x95, 0x01, 0x81, 0x03, 0x05, 0x08, 0x19,
        0x01, 0x29, 0x05, 0x25, 0x01, 0x75, 0x01, 0x95, 0x05, 0x91, 0x02, 0x95, 0x03, 0x91, 0x03, 0x05, 0x07, 0x19,
        0x00, 0x29, 0xdd, 0x26, 0xff, 0x00, 0x75, 0x08, 0x95, 0x06, 0x81, 0x00, 0xc0,
    ];
    assert_eq!(KeyboardReport::desc(), expected);
}

#[test]
fn vendor_descriptor_bytes_are_pinned() {
    let mut expected: [u8; 27] = [
        0x06, 0x60, 0xff, 0x09, 0x61, 0xa1, 0x01, 0x09, 0x62, 0x15, 0x00, 0x26, 0xff, 0x00, 0x75, 0x08, 0x95, 0x20,
        0x81, 0x02, 0x09, 0x63, 0x15, 0x00, 0x91, 0x02, 0xc0,
    ];
    assert_eq!(ViaReport::desc(), expected);
    expected[1] = 0x14;
    assert_eq!(RynkHidReport::desc(), expected);
}

#[test]
fn steno_descriptor_bytes_are_pinned() {
    let expected: [u8; 27] = [
        0x06, 0x50, 0xff, 0x0a, 0x56, 0x4c, 0xa1, 0x02, 0x05, 0x0a, 0x19, 0x00, 0x29, 0x3f, 0x85, 0x50, 0x15, 0x00,
        0x25, 0x01, 0x75, 0x01, 0x95, 0x40, 0x81, 0x02, 0xc0,
    ];
    assert_eq!(StenoReport::desc(), expected);
}

#[test]
fn declared_widths_match_the_reports() {
    let (input, output, feature) = (0x80, 0x90, 0xb0);
    assert_eq!(bits(&KeyboardReport::desc(), input, 0), 64);
    assert_eq!(bits(&KeyboardReport::desc(), output, 0), 8);
    assert_eq!(bits(&ViaReport::desc(), input, 0), 256);
    assert_eq!(bits(&RynkHidReport::desc(), output, 0), 256);
    assert_eq!(bits(&StenoReport::desc(), input, 0x50), 64);
    for hires_scroll in [false, true] {
        let desc = CompositeReport::desc(hires_scroll);
        assert_eq!(bits(&desc, input, 2), 72);
        assert_eq!(bits(&desc, input, 3), 16);
        assert_eq!(bits(&desc, input, 4), 8);
        assert_eq!(bits(&desc, feature, 5), if hires_scroll { 16 } else { 0 });
    }
    let ble = BleCompositeReport::desc();
    assert_eq!(bits(&ble, input, 1), 64);
    assert_eq!(bits(&ble, output, 1), 8);
    assert_eq!(bits(&ble, input, 2), 72);
    assert_eq!(bits(&ble, input, 3), 16);
    assert_eq!(bits(&ble, input, 4), 8);
}

#[test]
fn collections_are_closed() {
    for desc in [
        KeyboardReport::desc(),
        ViaReport::desc(),
        RynkHidReport::desc(),
        StenoReport::desc(),
        CompositeReport::desc(false),
        CompositeReport::desc(true),
        BleCompositeReport::desc(),
    ] {
        let list = items(&desc);
        let opened = list.iter().filter(|(tag, _)| *tag == 0xa0).count();
        let closed = list.iter().filter(|(tag, _)| *tag == 0xc0).count();
        assert_eq!(opened, closed);
    }
}

/// The BLE report map is the keyboard behind report id 1, then the composite reports, whose
/// buttons inherit the logical minimum of the keyboard.
#[test]
fn ble_report_map_joins_keyboard_and_composite() {
    let mut expected = KeyboardReport::desc();
    expected.splice(6..6, [0x85, 0x01]);
    let mut composite = CompositeReport::desc(false);
    composite.drain(18..20);
    expected.extend(composite);
    assert_eq!(BleCompositeReport::desc(), expected);
}

#[test]
fn item_widths_depend_on_the_value() {
    let mut b = DescriptorBuilder::new();
    b.item(Item::Usage(0xff));
    b.item(Item::Usage(0x100));
    b.item(Item::LogicalMinimum(-1));
    b.item(Item::LogicalMaximum(0));
    b.item(Item::LogicalMaximum(254));
    b.item(Item::LogicalMaximum(255));
    b.item(Item::LogicalMaximum(0xfeff));
    b.item(Item::LogicalMaximum(0xff00));
    b.item(Item::PhysicalMinimum(7));
    b.item(Item::EndCollection);
    assert_eq!(
        b.finish(),
        [
            0x09, 0xff, 0x0a, 0x00, 0x01, 0x17, 0xff, 0xff, 0xff, 0xff, 0x25, 0x00, 0x25, 0xfe, 0x26, 0xff, 0x00, 0x26,
            0xff, 0xfe, 0x27, 0x00, 0xff, 0x00, 0x00, 0x35, 0x07, 0xc0,
        ]
    );
}

/// What a host reads from the bytes is what was written.
#[test]
fn descriptors_survive_being_read_back() {
    let signed = |data: &[u8]| match data.len() {
        1 => data[0] as i8 as i32,
        2 => i16::from_le_bytes([data[0], data[1]]) as i32,
        _ => i32::from_le_bytes([data[0], data[1], data[2], data[3]]),
    };
    let unsigned = |data: &[u8]| data.iter().rev().fold(0u16, |v, b| v << 8 | *b as u16);
    for desc in [
        KeyboardReport::desc(),
        ViaReport::desc(),
        RynkHidReport::desc(),
        StenoReport::desc(),
        CompositeReport::desc(false),
        CompositeReport::desc(true),
        BleCompositeReport::desc(),
    ] {
        let mut b = DescriptorBuilder::new();
        for (tag, data) in items(&desc) {
            b.item(match tag {
                0x04 => Item::UsagePage(unsigned(&data)),
                0x08 => Item::Usage(unsigned(&data)),
                0x14 => Item::LogicalMinimum(signed(&data)),
                0x18 => Item::UsageMinimum(unsigned(&data)),
                0x24 => Item::LogicalMaximum(signed(&data)),
                0x28 => Item::UsageMaximum(unsigned(&data)),
                0x34 => Item::PhysicalMinimum(data[0]),
                0x44 => Item::PhysicalMaximum(data[0]),
                0x74 => Item::ReportSize(data[0]),
                0x80 => Item::Input(data[0]),
                0x84 => Item::ReportId(data[0]),
                0x90 => Item::Output(data[0]),
                0x94 => Item::ReportCount(data[0]),
                0xa0 => Item::Collection(data[0]),
                0xb0 => Item::Feature(data[0]),
                0xc0 => Item::EndCollection,
                other => panic!("unknown item {other}"),
            });
        }
        assert_eq!(b.finish(), desc);
    }
}
