//! What a host learns from a report descriptor: the fields of every report, with the global and
//! local items that apply to them, and the laws that the device's descriptors keep.

use vstd::prelude::*;

use crate::descriptor::{
    all_read_back, decode, encode, first_read_back, law_decode_inverts_encode, lemma_all_read_back,
    reads_back, Item, COLLECTION_APPLICATION, COLLECTION_LOGICAL, COLLECTION_PHYSICAL,
};
use crate::hid::{
    CompositeReportType, KeyboardReport, MediaKeyboardReport, MouseReport, Report, RynkHidReport,
    StenoReport, SystemControlReport, ViaReport, PLOVER_HID_REPORT_ID,
};
use crate::hires::{RESOLUTION_MULTIPLIER_MAX, RESOLUTION_MULTIPLIER_REPORT_ID};
use crate::report_maps::{
    ble_items, composite_items, detent_scroll_items, hires_pan_items, hires_scroll_items,
    hires_wheel_items, key_code_items, keyboard_items, keyboard_led_items, media_items,
    modifier_items, pointer_items, steno_items, system_items, vendor_items, AXIS_MAXIMUM,
    AXIS_MINIMUM, PAGE_BUTTON, PAGE_CONSUMER, PAGE_GENERIC_DESKTOP, PAGE_KEYBOARD, PAGE_LEDS,
    PAGE_ORDINAL, PAGE_RYNK, PAGE_VIA, USAGE_AC_PAN, USAGE_KEYBOARD, USAGE_RESOLUTION_MULTIPLIER,
    USAGE_WHEEL, USAGE_X, USAGE_Y,
};
use crate::usb::writer::{report_endpoint, transfer_bytes, Endpoint};
use crate::wire::AsInputReport;

verus! {

/// The direction of a field.
pub ghost enum FieldKind {
    Input,
    Output,
    Feature,
}

/// A collection that is open.
pub ghost struct OpenCollection {
    /// The type of the collection.
    pub kind: u8,
    /// Its place among all collections of the descriptor.
    pub ordinal: nat,
}

/// A field of a report, as a main item declares it.
pub ghost struct Field {
    pub kind: FieldKind,
    /// The report that the field is part of; 0 where the descriptor uses no report ids.
    pub report_id: u8,
    pub usage_page: u16,
    /// The last usage before the main item.
    pub usage: u16,
    /// Width of one value in bits.
    pub size: nat,
    /// How many values the field holds.
    pub count: nat,
    pub logical: (int, int),
    /// (0, 0) stands for the logical range.
    pub physical: (int, int),
    /// The innermost collection around the field.
    pub collection: OpenCollection,
}

/// How many bits `count` values of `size` bits take.
pub open spec fn product(size: nat, count: nat) -> nat {
    size * count
}

impl Field {
    /// How many bits the field takes in its report.
    pub open spec fn bits(self) -> nat {
        product(self.size, self.count)
    }
}

/// The host's parser between two items.
pub ghost struct Parser {
    /// The global items and the last usage, as the next main item would use them.
    pub next: Field,
    pub stack: Seq<OpenCollection>,
    pub opened: nat,
    pub fields: Seq<Field>,
}

/// The parser before the first item.
pub open spec fn start() -> Parser {
    Parser {
        next: Field {
            kind: FieldKind::Input,
            report_id: 0,
            usage_page: 0,
            usage: 0,
            size: 0,
            count: 0,
            logical: (0, 0),
            physical: (0, 0),
            collection: OpenCollection { kind: 0, ordinal: 0 },
        },
        stack: Seq::empty(),
        opened: 0,
        fields: Seq::empty(),
    }
}

impl Field {
    /// The global items and the last usage behind one more item. Local items do not outlive a
    /// main item.
    pub open spec fn after(self, item: Item) -> Field {
        Field {
            report_id: match item {
                Item::ReportId(v) => v,
                _ => self.report_id,
            },
            usage_page: match item {
                Item::UsagePage(v) => v,
                _ => self.usage_page,
            },
            usage: match item {
                Item::Usage(v) => v,
                Item::Collection(_) | Item::Input(_) | Item::Output(_) | Item::Feature(_) => 0,
                _ => self.usage,
            },
            size: match item {
                Item::ReportSize(v) => v as nat,
                _ => self.size,
            },
            count: match item {
                Item::ReportCount(v) => v as nat,
                _ => self.count,
            },
            logical: match item {
                Item::LogicalMinimum(v) => (v as int, self.logical.1),
                Item::LogicalMaximum(v) => (self.logical.0, v as int),
                _ => self.logical,
            },
            physical: match item {
                Item::PhysicalMinimum(v) => (v as int, self.physical.1),
                Item::PhysicalMaximum(v) => (self.physical.0, v as int),
                _ => self.physical,
            },
            ..self
        }
    }
}

impl Parser {
    /// The field that a main item declares here.
    pub open spec fn field(self, kind: FieldKind) -> Field {
        Field { kind, collection: self.stack.last(), ..self.next }
    }

    /// The parser after one more item (HID 1.11 section 6.2.2).
    pub open spec fn after(self, item: Item) -> Parser {
        Parser {
            next: self.next.after(item),
            stack: match item {
                Item::Collection(kind) => self.stack.push(
                    OpenCollection { kind, ordinal: self.opened },
                ),
                Item::EndCollection => self.stack.drop_last(),
                _ => self.stack,
            },
            opened: match item {
                Item::Collection(_) => self.opened + 1,
                _ => self.opened,
            },
            fields: match item {
                Item::Input(_) => self.fields.push(self.field(FieldKind::Input)),
                Item::Output(_) => self.fields.push(self.field(FieldKind::Output)),
                Item::Feature(_) => self.fields.push(self.field(FieldKind::Feature)),
                _ => self.fields,
            },
        }
    }
}

/// The parser after the first `n` of some items.
pub open spec fn parse_first(from: Parser, items: Seq<Item>, n: nat) -> Parser
    decreases n,
{
    if n == 0 {
        from
    } else {
        parse_first(from, items, (n - 1) as nat).after(items[n - 1])
    }
}

/// The parser after a run of items.
pub open spec fn parse(from: Parser, items: Seq<Item>) -> Parser {
    parse_first(from, items, items.len())
}

/// The fields that a descriptor declares.
pub open spec fn fields(items: Seq<Item>) -> Seq<Field> {
    parse(start(), items).fields
}

/// How many bits of a report the fields make up.
pub open spec fn report_bits(fields: Seq<Field>, kind: FieldKind, report_id: u8) -> nat
    decreases fields.len(),
{
    if fields.len() == 0 {
        0
    } else {
        let field = fields.last();
        report_bits(fields.drop_last(), kind, report_id) + (if field.kind == kind
            && field.report_id == report_id {
            field.bits()
        } else {
            0
        })
    }
}

/// Items behind the first `n` do not matter to the parser after those.
proof fn lemma_parse_first_prefix(from: Parser, a: Seq<Item>, b: Seq<Item>, n: nat)
    requires
        n <= a.len(),
    ensures
        parse_first(from, a + b, n) == parse_first(from, a, n),
    decreases n,
{
    if n > 0 {
        lemma_parse_first_prefix(from, a, b, (n - 1) as nat);
    }
}

proof fn lemma_parse_first_append(from: Parser, a: Seq<Item>, b: Seq<Item>, n: nat)
    requires
        n <= b.len(),
    ensures
        parse_first(from, a + b, a.len() + n) == parse_first(parse(from, a), b, n),
    decreases n,
{
    if n == 0 {
        lemma_parse_first_prefix(from, a, b, a.len());
    } else {
        lemma_parse_first_append(from, a, b, (n - 1) as nat);
        assert((a + b)[a.len() + n - 1] == b[n - 1]);
    }
}

/// The host reads items one after the other: what comes first decides what it starts the rest
/// with.
proof fn lemma_parse_append(from: Parser, a: Seq<Item>, b: Seq<Item>)
    ensures
        parse(from, a + b) == parse(parse(from, a), b),
{
    lemma_parse_first_append(from, a, b, b.len());
}

broadcast proof fn lemma_report_bits_push(
    fields: Seq<Field>,
    field: Field,
    kind: FieldKind,
    report_id: u8,
)
    ensures
        #[trigger] report_bits(fields.push(field), kind, report_id) == report_bits(
            fields,
            kind,
            report_id,
        ) + (if field.kind == kind && field.report_id == report_id {
            field.bits()
        } else {
            0
        }),
{
    assert(fields.push(field).drop_last() =~= fields);
}

/// The widths of the fields that the device's descriptors declare.
proof fn lemma_products()
    ensures
        product(1, 3) == 3,
        product(1, 5) == 5,
        product(1, 8) == 8,
        product(1, 64) == 64,
        product(8, 1) == 8,
        product(8, 6) == 48,
        product(8, 32) == 256,
        product(16, 1) == 16,
{
}

/// A field of single bits.
pub open spec fn bit_field(
    kind: FieldKind,
    report_id: u8,
    page: u16,
    count: nat,
    collection: OpenCollection,
) -> Field {
    Field {
        kind,
        report_id,
        usage_page: page,
        usage: 0,
        size: 1,
        count,
        logical: (0, 1),
        physical: (0, 0),
        collection,
    }
}

/// A field of bytes.
pub open spec fn byte_field(
    kind: FieldKind,
    report_id: u8,
    page: u16,
    usage: u16,
    count: nat,
    logical: (int, int),
    collection: OpenCollection,
) -> Field {
    Field {
        kind,
        report_id,
        usage_page: page,
        usage,
        size: 8,
        count,
        logical,
        physical: (0, 0),
        collection,
    }
}

/// A mouse axis.
pub open spec fn axis(page: u16, usage: u16, collection: OpenCollection) -> Field {
    Field {
        kind: FieldKind::Input,
        report_id: CompositeReportType::Mouse.spec_id(),
        usage_page: page,
        usage,
        size: 16,
        count: 1,
        logical: (AXIS_MINIMUM as int, AXIS_MAXIMUM as int),
        physical: (0, 0),
        collection,
    }
}

/// A Resolution Multiplier feature.
pub open spec fn multiplier(collection: OpenCollection) -> Field {
    Field {
        kind: FieldKind::Feature,
        report_id: RESOLUTION_MULTIPLIER_REPORT_ID,
        usage_page: PAGE_GENERIC_DESKTOP,
        usage: USAGE_RESOLUTION_MULTIPLIER,
        size: 8,
        count: 1,
        logical: (0, 1),
        physical: (1, RESOLUTION_MULTIPLIER_MAX as int),
        collection,
    }
}

/// The parser after [`pointer_items`].
pub open spec fn after_pointer(p: Parser) -> Parser {
    let application = OpenCollection { kind: COLLECTION_APPLICATION, ordinal: p.opened };
    let physical = OpenCollection { kind: COLLECTION_PHYSICAL, ordinal: p.opened + 1 };
    Parser {
        next: Field {
            report_id: CompositeReportType::Mouse.spec_id(),
            usage_page: PAGE_GENERIC_DESKTOP,
            usage: 0,
            size: 16,
            count: 1,
            logical: (AXIS_MINIMUM as int, AXIS_MAXIMUM as int),
            ..p.next
        },
        stack: p.stack.push(application).push(physical),
        opened: p.opened + 2,
        fields: p.fields.push(
            bit_field(
                FieldKind::Input,
                CompositeReportType::Mouse.spec_id(),
                PAGE_BUTTON,
                8,
                physical,
            ),
        ).push(axis(PAGE_GENERIC_DESKTOP, USAGE_X, physical)).push(
            axis(PAGE_GENERIC_DESKTOP, USAGE_Y, physical),
        ),
    }
}

proof fn lemma_parse_pointer(p: Parser, set_logical_minimum: bool)
    requires
        p.next.physical == (0int, 0int),
        p.next.usage == 0,
        set_logical_minimum || p.next.logical.0 == 0,
    ensures
        parse(p, pointer_items(set_logical_minimum)) == after_pointer(p),
{
    reveal_with_fuel(parse_first, 24);
}

/// The parser after [`detent_scroll_items`], which close two collections.
pub open spec fn after_detent_scroll(p: Parser) -> Parser {
    Parser {
        next: Field { usage_page: PAGE_CONSUMER, usage: 0, ..p.next },
        stack: p.stack.drop_last().drop_last(),
        opened: p.opened,
        fields: p.fields.push(axis(PAGE_GENERIC_DESKTOP, USAGE_WHEEL, p.stack.last())).push(
            axis(PAGE_CONSUMER, USAGE_AC_PAN, p.stack.last()),
        ),
    }
}

/// Whether the next field would be a mouse axis on the generic desktop page.
pub open spec fn before_axis(p: Parser) -> bool {
    p.next == (Field {
        usage: 0,
        kind: p.next.kind,
        collection: p.next.collection,
        ..axis(PAGE_GENERIC_DESKTOP, 0, p.next.collection)
    })
}

proof fn lemma_parse_detent_scroll(p: Parser)
    requires
        before_axis(p),
    ensures
        parse(p, detent_scroll_items()) == after_detent_scroll(p),
{
    reveal_with_fuel(parse_first, 8);
}

/// The parser after a logical collection of a multiplier and the axis that it applies to.
pub open spec fn after_scaled_axis(p: Parser, page: u16, usage: u16) -> Parser {
    let collection = OpenCollection { kind: COLLECTION_LOGICAL, ordinal: p.opened };
    Parser {
        next: Field { usage_page: page, usage: 0, ..p.next },
        stack: p.stack,
        opened: p.opened + 1,
        fields: p.fields.push(multiplier(collection)).push(axis(page, usage, collection)),
    }
}

/// The parser after [`hires_scroll_items`], which close two collections.
pub open spec fn after_hires_scroll(p: Parser) -> Parser {
    let wheel = after_scaled_axis(p, PAGE_GENERIC_DESKTOP, USAGE_WHEEL);
    let pan = after_scaled_axis(wheel, PAGE_CONSUMER, USAGE_AC_PAN);
    Parser { stack: p.stack.drop_last().drop_last(), ..pan }
}

proof fn lemma_parse_hires_wheel(p: Parser)
    requires
        before_axis(p),
    ensures
        parse(p, hires_wheel_items()) == after_scaled_axis(p, PAGE_GENERIC_DESKTOP, USAGE_WHEEL),
{
    reveal_with_fuel(parse_first, 21);
    let wheel = OpenCollection { kind: COLLECTION_LOGICAL, ordinal: p.opened };
    assert(p.stack.push(wheel).drop_last() =~= p.stack);
}

proof fn lemma_parse_hires_pan(p: Parser)
    requires
        before_axis(p),
    ensures
        parse(p, hires_pan_items()) == after_scaled_axis(p, PAGE_CONSUMER, USAGE_AC_PAN),
{
    reveal_with_fuel(parse_first, 23);
    let pan = OpenCollection { kind: COLLECTION_LOGICAL, ordinal: p.opened };
    assert(p.stack.push(pan).drop_last() =~= p.stack);
}

proof fn lemma_parse_hires_scroll(p: Parser)
    requires
        before_axis(p),
    ensures
        parse(p, hires_scroll_items()) == after_hires_scroll(p),
{
    let wheel = after_scaled_axis(p, PAGE_GENERIC_DESKTOP, USAGE_WHEEL);
    let pan = after_scaled_axis(wheel, PAGE_CONSUMER, USAGE_AC_PAN);
    let end = seq![Item::EndCollection, Item::EndCollection];
    lemma_parse_append(p, hires_wheel_items() + hires_pan_items(), end);
    lemma_parse_append(p, hires_wheel_items(), hires_pan_items());
    lemma_parse_hires_wheel(p);
    lemma_parse_hires_pan(wheel);
    assert(parse(pan, end) == after_hires_scroll(p)) by {
        reveal_with_fuel(parse_first, 3);
    }
}

/// The parser after an application collection of one input field that takes its width from the
/// items before.
pub open spec fn after_key_array(
    p: Parser,
    report_id: u8,
    page: u16,
    size: nat,
    logical: (int, int),
) -> Parser {
    let collection = OpenCollection { kind: COLLECTION_APPLICATION, ordinal: p.opened };
    let next = Field { report_id, usage_page: page, usage: 0, size, logical, ..p.next };
    Parser {
        next,
        stack: p.stack,
        opened: p.opened + 1,
        fields: p.fields.push(Field { kind: FieldKind::Input, collection, ..next }),
    }
}

proof fn lemma_parse_media(p: Parser)
    requires
        p.next.usage == 0,
    ensures
        parse(p, media_items()) == after_key_array(
            p,
            CompositeReportType::Media.spec_id(),
            PAGE_CONSUMER,
            p.next.size,
            (0, 65535),
        ),
{
    reveal_with_fuel(parse_first, 12);
    let collection = OpenCollection { kind: COLLECTION_APPLICATION, ordinal: p.opened };
    assert(p.stack.push(collection).drop_last() =~= p.stack);
}

proof fn lemma_parse_system(p: Parser)
    requires
        p.next.usage == 0,
    ensures
        parse(p, system_items()) == after_key_array(
            p,
            CompositeReportType::System.spec_id(),
            PAGE_GENERIC_DESKTOP,
            8,
            (1, 255),
        ),
{
    reveal_with_fuel(parse_first, 12);
    let collection = OpenCollection { kind: COLLECTION_APPLICATION, ordinal: p.opened };
    assert(p.stack.push(collection).drop_last() =~= p.stack);
}

/// The parser after [`modifier_items`].
pub open spec fn after_modifiers(p: Parser) -> Parser {
    let id = p.next.report_id;
    let collection = p.stack.last();
    let reserved = byte_field(FieldKind::Input, id, PAGE_KEYBOARD, 0, 1, (0, 255), collection);
    Parser {
        next: Field { kind: p.next.kind, collection: p.next.collection, ..reserved },
        fields: p.fields.push(
            bit_field(FieldKind::Input, id, PAGE_KEYBOARD, 8, collection),
        ).push(reserved),
        ..p
    }
}

proof fn lemma_parse_modifiers(p: Parser)
    requires
        p.next.usage == 0,
        p.next.physical == (0int, 0int),
    ensures
        parse(p, modifier_items()) == after_modifiers(p),
{
    reveal_with_fuel(parse_first, 14);
}

/// The parser after [`keyboard_led_items`].
pub open spec fn after_keyboard_leds(p: Parser) -> Parser {
    let id = p.next.report_id;
    let collection = p.stack.last();
    let padding = bit_field(FieldKind::Output, id, PAGE_LEDS, 3, collection);
    Parser {
        next: Field { kind: p.next.kind, collection: p.next.collection, ..padding },
        fields: p.fields.push(
            bit_field(FieldKind::Output, id, PAGE_LEDS, 5, collection),
        ).push(padding),
        ..p
    }
}

proof fn lemma_parse_keyboard_leds(p: Parser)
    requires
        p.next.usage == 0,
        p.next.physical == (0int, 0int),
        p.next.logical.0 == 0,
    ensures
        parse(p, keyboard_led_items()) == after_keyboard_leds(p),
{
    reveal_with_fuel(parse_first, 10);
}

/// The parser after [`key_code_items`], which close the keyboard.
pub open spec fn after_key_codes(p: Parser) -> Parser {
    let id = p.next.report_id;
    let codes = byte_field(FieldKind::Input, id, PAGE_KEYBOARD, 0, 6, (0, 255), p.stack.last());
    Parser {
        next: Field { kind: p.next.kind, collection: p.next.collection, ..codes },
        stack: p.stack.drop_last(),
        fields: p.fields.push(codes),
        ..p
    }
}

proof fn lemma_parse_key_codes(p: Parser)
    requires
        p.next.usage == 0,
        p.next.physical == (0int, 0int),
        p.next.logical.0 == 0,
    ensures
        parse(p, key_code_items()) == after_key_codes(p),
{
    reveal_with_fuel(parse_first, 9);
}

/// The parser after the items of the keyboard that come before [`modifier_items`].
pub open spec fn in_keyboard(report_id: Option<u8>) -> Parser {
    Parser {
        next: Field {
            usage_page: PAGE_GENERIC_DESKTOP,
            report_id: match report_id {
                Some(id) => id,
                None => 0,
            },
            ..start().next
        },
        stack: seq![OpenCollection { kind: COLLECTION_APPLICATION, ordinal: 0 }],
        opened: 1,
        fields: Seq::empty(),
    }
}

/// The parser after [`keyboard_items`], where they come first.
pub open spec fn after_keyboard(report_id: Option<u8>) -> Parser {
    after_key_codes(after_keyboard_leds(after_modifiers(in_keyboard(report_id))))
}

proof fn lemma_parse_keyboard(report_id: Option<u8>)
    ensures
        parse(start(), keyboard_items(report_id)) == after_keyboard(report_id),
{
    let head = seq![
        Item::UsagePage(PAGE_GENERIC_DESKTOP),
        Item::Usage(USAGE_KEYBOARD),
        Item::Collection(COLLECTION_APPLICATION),
    ] + (match report_id {
        Some(id) => seq![Item::ReportId(id)],
        None => seq![],
    });
    assert(parse(start(), head) == in_keyboard(report_id)) by {
        reveal_with_fuel(parse_first, 5);
        assert(parse(start(), head).stack =~= in_keyboard(report_id).stack);
    }
    let p = in_keyboard(report_id);
    lemma_parse_append(
        start(),
        head + modifier_items() + keyboard_led_items(),
        key_code_items(),
    );
    lemma_parse_append(start(), head + modifier_items(), keyboard_led_items());
    lemma_parse_append(start(), head, modifier_items());
    lemma_parse_modifiers(p);
    lemma_parse_keyboard_leds(after_modifiers(p));
    lemma_parse_key_codes(after_keyboard_leds(after_modifiers(p)));
}

proof fn lemma_parse_vendor(page: u16)
    ensures
        parse(start(), vendor_items(page)).stack.len() == 0,
        fields(vendor_items(page)) == Seq::empty().push(
            byte_field(
                FieldKind::Input,
                0,
                page,
                0x62,
                32,
                (0, 255),
                OpenCollection { kind: COLLECTION_APPLICATION, ordinal: 0 },
            ),
        ).push(
            byte_field(
                FieldKind::Output,
                0,
                page,
                0x63,
                32,
                (0, 255),
                OpenCollection { kind: COLLECTION_APPLICATION, ordinal: 0 },
            ),
        ),
{
    reveal_with_fuel(parse_first, 14);
}

proof fn lemma_parse_steno()
    ensures
        parse(start(), steno_items()).stack.len() == 0,
        fields(steno_items()) == Seq::empty().push(
            bit_field(
                FieldKind::Input,
                PLOVER_HID_REPORT_ID,
                PAGE_ORDINAL,
                64,
                OpenCollection { kind: COLLECTION_LOGICAL, ordinal: 0 },
            ),
        ),
{
    reveal_with_fuel(parse_first, 14);
}

/// The parser after [`media_items`].
pub open spec fn after_media(p: Parser) -> Parser {
    after_key_array(
        p,
        CompositeReportType::Media.spec_id(),
        PAGE_CONSUMER,
        p.next.size,
        (0, 65535),
    )
}

/// The parser after [`system_items`].
pub open spec fn after_system(p: Parser) -> Parser {
    after_key_array(p, CompositeReportType::System.spec_id(), PAGE_GENERIC_DESKTOP, 8, (1, 255))
}

/// The parser after [`composite_items`].
pub open spec fn after_composite(hires_scroll: bool) -> Parser {
    let pointer = after_pointer(start());
    after_system(
        after_media(
            if hires_scroll {
                after_hires_scroll(pointer)
            } else {
                after_detent_scroll(pointer)
            },
        ),
    )
}

proof fn lemma_parse_composite(hires_scroll: bool)
    ensures
        parse(start(), composite_items(hires_scroll)) == after_composite(hires_scroll),
{
    let scroll = if hires_scroll {
        hires_scroll_items()
    } else {
        detent_scroll_items()
    };
    lemma_parse_append(start(), pointer_items(true) + scroll + media_items(), system_items());
    lemma_parse_append(start(), pointer_items(true) + scroll, media_items());
    lemma_parse_append(start(), pointer_items(true), scroll);
    lemma_parse_pointer(start(), true);
    let pointer = after_pointer(start());
    let mouse = if hires_scroll {
        lemma_parse_hires_scroll(pointer);
        after_hires_scroll(pointer)
    } else {
        lemma_parse_detent_scroll(pointer);
        after_detent_scroll(pointer)
    };
    lemma_parse_media(mouse);
    lemma_parse_system(after_media(mouse));
}

/// The parser after [`ble_items`].
pub open spec fn after_ble() -> Parser {
    let keyboard = after_keyboard(Some(CompositeReportType::Keyboard.spec_id()));
    after_system(after_media(after_detent_scroll(after_pointer(keyboard))))
}

proof fn lemma_parse_ble()
    ensures
        parse(start(), ble_items()) == after_ble(),
{
    let id = Some(CompositeReportType::Keyboard.spec_id());
    let mouse_items = keyboard_items(id) + pointer_items(false) + detent_scroll_items();
    lemma_parse_append(start(), mouse_items + media_items(), system_items());
    lemma_parse_append(start(), mouse_items, media_items());
    lemma_parse_append(start(), keyboard_items(id) + pointer_items(false), detent_scroll_items());
    lemma_parse_append(start(), keyboard_items(id), pointer_items(false));
    lemma_parse_keyboard(id);
    let keyboard = after_keyboard(id);
    lemma_parse_pointer(keyboard, false);
    lemma_parse_detent_scroll(after_pointer(keyboard));
    let mouse = after_detent_scroll(after_pointer(keyboard));
    lemma_parse_media(mouse);
    lemma_parse_system(after_media(mouse));
}

/// The keyboard descriptor declares exactly the eight bytes that a keyboard report has on the
/// wire, and one byte of LEDs in the other direction.
pub proof fn law_keyboard_descriptor_matches_the_wire(report: KeyboardReport)
    ensures
        report_bits(fields(keyboard_items(None)), FieldKind::Input, 0) == 8 * report.wire().len(),
        report_bits(fields(keyboard_items(None)), FieldKind::Output, 0) == 8,
{
    broadcast use lemma_report_bits_push;

    lemma_parse_keyboard(None);
    lemma_products();
}

/// The vendor descriptors declare exactly the bytes of a Via and of a Rynk report, in both
/// directions.
pub proof fn law_vendor_descriptors_match_the_wire(via: ViaReport, rynk: RynkHidReport)
    ensures
        report_bits(fields(vendor_items(PAGE_VIA)), FieldKind::Input, 0) == 8 * via.wire().len(),
        report_bits(fields(vendor_items(PAGE_VIA)), FieldKind::Output, 0) == 8
            * via.output_data@.len(),
        report_bits(fields(vendor_items(PAGE_RYNK)), FieldKind::Input, 0) == 8
            * rynk.wire().len(),
        report_bits(fields(vendor_items(PAGE_RYNK)), FieldKind::Output, 0) == 8
            * rynk.output_data@.len(),
{
    broadcast use lemma_report_bits_push;

    lemma_parse_vendor(PAGE_VIA);
    lemma_parse_vendor(PAGE_RYNK);
    lemma_products();
}

/// The stenography descriptor declares exactly the bits behind the report id of a stenography
/// report, and its report carries the id that the descriptor announces.
pub proof fn law_steno_descriptor_matches_the_wire(report: StenoReport)
    ensures
        report_bits(fields(steno_items()), FieldKind::Input, PLOVER_HID_REPORT_ID) == 8 * (
        report.wire().len() - 1),
        report.wire()[0] == PLOVER_HID_REPORT_ID,
{
    broadcast use lemma_report_bits_push;

    lemma_parse_steno();
    lemma_products();
}

/// With and without hi-res scrolling, the composite descriptor declares for each report id
/// exactly the bytes that the report behind that id has on the wire, and a feature report of one
/// byte per multiplier where the multipliers can be negotiated.
pub proof fn law_composite_descriptor_matches_the_wire(
    hires_scroll: bool,
    mouse: MouseReport,
    media: MediaKeyboardReport,
    system: SystemControlReport,
)
    ensures
        report_bits(
            fields(composite_items(hires_scroll)),
            FieldKind::Input,
            CompositeReportType::Mouse.spec_id(),
        ) == 8 * mouse.wire().len(),
        report_bits(
            fields(composite_items(hires_scroll)),
            FieldKind::Input,
            CompositeReportType::Media.spec_id(),
        ) == 8 * media.wire().len(),
        report_bits(
            fields(composite_items(hires_scroll)),
            FieldKind::Input,
            CompositeReportType::System.spec_id(),
        ) == 8 * system.wire().len(),
        report_bits(
            fields(composite_items(hires_scroll)),
            FieldKind::Feature,
            RESOLUTION_MULTIPLIER_REPORT_ID,
        ) == (if hires_scroll {
            16nat
        } else {
            0
        }),
{
    broadcast use lemma_report_bits_push;

    lemma_parse_composite(hires_scroll);
    lemma_products();
}

/// The BLE report map declares for each report id exactly the bytes that the report behind that
/// id has on the wire, and one byte of LEDs in the other direction.
pub proof fn law_ble_report_map_matches_the_wire(
    keyboard: KeyboardReport,
    mouse: MouseReport,
    media: MediaKeyboardReport,
    system: SystemControlReport,
)
    ensures
        report_bits(
            fields(ble_items()),
            FieldKind::Input,
            CompositeReportType::Keyboard.spec_id(),
        ) == 8 * keyboard.wire().len(),
        report_bits(
            fields(ble_items()),
            FieldKind::Output,
            CompositeReportType::Keyboard.spec_id(),
        ) == 8,
        report_bits(fields(ble_items()), FieldKind::Input, CompositeReportType::Mouse.spec_id())
            == 8 * mouse.wire().len(),
        report_bits(fields(ble_items()), FieldKind::Input, CompositeReportType::Media.spec_id())
            == 8 * media.wire().len(),
        report_bits(fields(ble_items()), FieldKind::Input, CompositeReportType::System.spec_id())
            == 8 * system.wire().len(),
{
    broadcast use lemma_report_bits_push;

    lemma_parse_ble();
    lemma_products();
}

/// Each Resolution Multiplier sits in a logical collection of its own, directly before the one
/// axis that it applies to: the wheel and AC Pan, in this order. It is one value of one byte with
/// the logical range 0 to 1 and the physical range 1 to [`RESOLUTION_MULTIPLIER_MAX`], in a
/// report of its own, and its physical range does not spill into any input.
pub proof fn law_multipliers_apply_to_the_axis_behind_them()
    ensures
        ({
            let host = fields(composite_items(true));
            &&& host.len() == 9
            &&& forall|i: int|
                0 <= i < 9 ==> ((#[trigger] host[i]).kind is Feature <==> i == 3 || i == 5)
            &&& forall|i: int|
                0 <= i < 9 && (#[trigger] host[i]).kind is Feature ==> {
                    &&& host[i] == multiplier(host[i].collection)
                    &&& host[i].collection.kind == COLLECTION_LOGICAL
                    &&& host[i + 1].kind is Input
                    &&& host[i + 1].collection == host[i].collection
                }
            &&& forall|i: int, j: int|
                0 <= i < 9 && 0 <= j < 9 && (#[trigger] host[i]).kind is Feature && j != i && j != i
                    + 1 ==> (#[trigger] host[j]).collection != host[i].collection
            &&& host[4] == axis(PAGE_GENERIC_DESKTOP, USAGE_WHEEL, host[4].collection)
            &&& host[6] == axis(PAGE_CONSUMER, USAGE_AC_PAN, host[6].collection)
            &&& forall|i: int|
                0 <= i < 9 && (#[trigger] host[i]).kind is Input ==> host[i].physical == (
                0int,
                0int,
                )
        }),
{
    lemma_parse_composite(true);
}

/// Without hi-res scrolling the host finds nothing to negotiate: the composite descriptor holds
/// input fields only, with the wheel and AC Pan among them.
pub proof fn law_detent_descriptor_has_no_multiplier()
    ensures
        ({
            let host = fields(composite_items(false));
            &&& host.len() == 7
            &&& forall|i: int| 0 <= i < 7 ==> (#[trigger] host[i]).kind is Input
            &&& host[3] == axis(PAGE_GENERIC_DESKTOP, USAGE_WHEEL, host[3].collection)
            &&& host[4] == axis(PAGE_CONSUMER, USAGE_AC_PAN, host[4].collection)
        }),
{
    lemma_parse_composite(false);
}

/// Hi-res scrolling adds the multipliers and changes nothing else of what the host knows about
/// the reports: the input fields are the same up to the collections around them.
pub proof fn law_hires_scroll_only_adds_multipliers()
    ensures
        ({
            let detents = fields(composite_items(false));
            let hires = fields(composite_items(true));
            forall|i: int|
                0 <= i < 7 ==> #[trigger] detents[i] == (Field {
                    collection: detents[i].collection,
                    ..hires[if i < 3 {
                        i
                    } else if i == 3 {
                        4
                    } else {
                        i + 2
                    }]
                })
        }),
{
    lemma_parse_composite(false);
    lemma_parse_composite(true);
}

/// Every descriptor closes the collections that it opens.
pub proof fn law_collections_are_balanced(hires_scroll: bool, page: u16)
    ensures
        parse(start(), keyboard_items(None)).stack.len() == 0,
        parse(start(), composite_items(hires_scroll)).stack.len() == 0,
        parse(start(), ble_items()).stack.len() == 0,
        parse(start(), vendor_items(page)).stack.len() == 0,
        parse(start(), steno_items()).stack.len() == 0,
{
    lemma_parse_keyboard(None);
    lemma_parse_composite(hires_scroll);
    lemma_parse_ble();
    lemma_parse_vendor(page);
    lemma_parse_steno();
}

broadcast proof fn lemma_read_back_append(a: Seq<Item>, b: Seq<Item>)
    requires
        all_read_back(a),
        all_read_back(b),
    ensures
        #[trigger] all_read_back(a + b),
{
    assert forall|i: int| 0 <= i < (a + b).len() implies reads_back(#[trigger] (a + b)[i]) by {
        if i < a.len() {
            assert((a + b)[i] == a[i]);
        } else {
            assert((a + b)[i] == b[i - a.len()]);
        }
    }
}

proof fn lemma_keyboard_reads_back(report_id: Option<u8>)
    ensures
        all_read_back(keyboard_items(report_id)),
{
    broadcast use lemma_read_back_append;

    reveal_with_fuel(first_read_back, 14);
    lemma_all_read_back(modifier_items(), modifier_items().len());
    lemma_all_read_back(keyboard_led_items(), keyboard_led_items().len());
    lemma_all_read_back(key_code_items(), key_code_items().len());
}

proof fn lemma_mouse_reads_back(set_logical_minimum: bool)
    ensures
        all_read_back(pointer_items(set_logical_minimum)),
        all_read_back(detent_scroll_items()),
        all_read_back(hires_scroll_items()),
{
    broadcast use lemma_read_back_append;

    reveal_with_fuel(first_read_back, 24);
    let n = pointer_items(set_logical_minimum).len();
    lemma_all_read_back(pointer_items(set_logical_minimum), n);
    lemma_all_read_back(detent_scroll_items(), detent_scroll_items().len());
    lemma_all_read_back(hires_wheel_items(), hires_wheel_items().len());
    lemma_all_read_back(hires_pan_items(), hires_pan_items().len());
}

proof fn lemma_other_items_read_back(page: u16)
    ensures
        all_read_back(media_items()),
        all_read_back(system_items()),
        all_read_back(vendor_items(page)),
        all_read_back(steno_items()),
{
    reveal_with_fuel(first_read_back, 14);
    lemma_all_read_back(media_items(), media_items().len());
    lemma_all_read_back(system_items(), system_items().len());
    lemma_all_read_back(vendor_items(page), vendor_items(page).len());
    lemma_all_read_back(steno_items(), steno_items().len());
}

/// A host reads from the bytes of each descriptor exactly the items that the other laws speak of.
pub proof fn law_hosts_read_back_the_descriptors(hires_scroll: bool, page: u16)
    ensures
        decode(encode(keyboard_items(None))) == Some(keyboard_items(None)),
        decode(encode(composite_items(hires_scroll))) == Some(composite_items(hires_scroll)),
        decode(encode(ble_items())) == Some(ble_items()),
        decode(encode(vendor_items(page))) == Some(vendor_items(page)),
        decode(encode(steno_items())) == Some(steno_items()),
{
    broadcast use lemma_read_back_append;

    lemma_keyboard_reads_back(None);
    lemma_keyboard_reads_back(Some(CompositeReportType::Keyboard.spec_id()));
    lemma_mouse_reads_back(true);
    lemma_mouse_reads_back(false);
    lemma_other_items_read_back(page);
    law_decode_inverts_encode(keyboard_items(None));
    law_decode_inverts_encode(composite_items(hires_scroll));
    law_decode_inverts_encode(ble_items());
    law_decode_inverts_encode(vendor_items(page));
    law_decode_inverts_encode(steno_items());
}

/// Whatever the device writes to an endpoint, the descriptor behind that endpoint declares: the
/// keyboard's transfer is its report, and in every other transfer the first byte is a report id
/// for which the descriptor declares exactly the bits of the bytes behind it.
pub proof fn law_transfers_match_their_descriptor(report: Report, hires_scroll: bool)
    ensures
        ({
            let bytes = transfer_bytes(report);
            match report_endpoint(report) {
                Endpoint::Keyboard => 8 * bytes.len() == report_bits(
                    fields(keyboard_items(None)),
                    FieldKind::Input,
                    0,
                ),
                Endpoint::Composite => 8 * (bytes.len() - 1) == report_bits(
                    fields(composite_items(hires_scroll)),
                    FieldKind::Input,
                    bytes[0],
                ),
                Endpoint::Steno => 8 * (bytes.len() - 1) == report_bits(
                    fields(steno_items()),
                    FieldKind::Input,
                    bytes[0],
                ),
            }
        }),
{
    let mouse = MouseReport { buttons: 0, x: 0, y: 0, wheel: 0, pan: 0 };
    let media = MediaKeyboardReport { usage_id: 0 };
    let system = SystemControlReport { usage_id: 0 };
    match report {
        Report::KeyboardReport(r) => law_keyboard_descriptor_matches_the_wire(r),
        Report::MouseReport(r) => law_composite_descriptor_matches_the_wire(
            hires_scroll,
            r,
            media,
            system,
        ),
        Report::MediaKeyboardReport(r) => law_composite_descriptor_matches_the_wire(
            hires_scroll,
            mouse,
            r,
            system,
        ),
        Report::SystemControlReport(r) => law_composite_descriptor_matches_the_wire(
            hires_scroll,
            mouse,
            media,
            r,
        ),
        Report::StenoReport(r) => law_steno_descriptor_matches_the_wire(r),
    }
}

} // verus!
