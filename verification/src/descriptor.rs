//! HID report descriptors: the items they are made of, how items are encoded, and how a host reads
//! them back.

use vstd::prelude::*;

use crate::wire::{from_le16, i32_le_bytes, le16, le32};

verus! {

/// Collection types (HID 1.11 section 6.2.2.6).
pub const COLLECTION_PHYSICAL: u8 = 0x00;

pub const COLLECTION_APPLICATION: u8 = 0x01;

pub const COLLECTION_LOGICAL: u8 = 0x02;

/// Settings of a main item (HID 1.11 section 6.2.2.5).
pub const DATA_ARRAY_ABSOLUTE: u8 = 0x00;

pub const DATA_VARIABLE_ABSOLUTE: u8 = 0x02;

pub const CONSTANT_VARIABLE_ABSOLUTE: u8 = 0x03;

pub const DATA_VARIABLE_RELATIVE: u8 = 0x06;

/// One short item of a report descriptor (HID 1.11 section 6.2.2).
#[derive(Debug, Clone, Copy, PartialEq, Eq, Structural)]
pub enum Item {
    UsagePage(u16),
    Usage(u16),
    UsageMinimum(u16),
    UsageMaximum(u16),
    LogicalMinimum(i32),
    LogicalMaximum(i32),
    PhysicalMinimum(u8),
    PhysicalMaximum(u8),
    ReportSize(u8),
    ReportCount(u8),
    ReportId(u8),
    Collection(u8),
    EndCollection,
    Input(u8),
    Output(u8),
    Feature(u8),
}

/// The data of an item whose value is unsigned: the fewest bytes that hold it.
pub open spec fn unsigned_data(v: int) -> Seq<u8> {
    if v < 0x100 {
        seq![v as u8]
    } else {
        le16(v)
    }
}

/// The data of an item whose value is signed: a width whose last byte is 0xff is not used for a
/// value that is not negative, and a negative value takes all four bytes.
pub open spec fn signed_data(v: int) -> Seq<u8> {
    if 0 <= v < 0xff {
        seq![v as u8]
    } else if 0 <= v < 0xff00 {
        le16(v)
    } else {
        le32(v)
    }
}

/// A short item: the prefix carries tag and type in its upper six bits and the width of the data
/// in its lower two, where 3 stands for four bytes.
pub open spec fn short_item(tag: int, data: Seq<u8>) -> Seq<u8> {
    let width = if data.len() == 4 {
        3
    } else {
        data.len() as int
    };
    seq![(tag + width) as u8] + data
}

impl Item {
    /// The bytes of the item in a report descriptor.
    pub open spec fn bytes(self) -> Seq<u8> {
        match self {
            Item::UsagePage(v) => short_item(0x04, unsigned_data(v as int)),
            Item::Usage(v) => short_item(0x08, unsigned_data(v as int)),
            Item::LogicalMinimum(v) => short_item(0x14, signed_data(v as int)),
            Item::UsageMinimum(v) => short_item(0x18, unsigned_data(v as int)),
            Item::LogicalMaximum(v) => short_item(0x24, signed_data(v as int)),
            Item::UsageMaximum(v) => short_item(0x28, unsigned_data(v as int)),
            Item::PhysicalMinimum(v) => short_item(0x34, seq![v]),
            Item::PhysicalMaximum(v) => short_item(0x44, seq![v]),
            Item::ReportSize(v) => short_item(0x74, seq![v]),
            Item::Input(v) => short_item(0x80, seq![v]),
            Item::ReportId(v) => short_item(0x84, seq![v]),
            Item::Output(v) => short_item(0x90, seq![v]),
            Item::ReportCount(v) => short_item(0x94, seq![v]),
            Item::Collection(v) => short_item(0xa0, seq![v]),
            Item::Feature(v) => short_item(0xb0, seq![v]),
            Item::EndCollection => seq![0xc0u8],
        }
    }
}

/// The bytes of a whole report descriptor.
pub open spec fn encode(items: Seq<Item>) -> Seq<u8>
    decreases items.len(),
{
    if items.len() == 0 {
        Seq::empty()
    } else {
        encode(items.drop_last()) + items.last().bytes()
    }
}

proof fn lemma_encode_push(items: Seq<Item>, item: Item)
    ensures
        encode(items.push(item)) == encode(items) + item.bytes(),
{
    assert(items.push(item).drop_last() =~= items);
}

/// How many bytes of data follow a prefix.
pub open spec fn data_width(prefix: u8) -> int {
    if prefix % 4 == 3 {
        4
    } else {
        (prefix % 4) as int
    }
}

/// The value of an item's data where it is unsigned.
pub open spec fn unsigned_value(data: Seq<u8>) -> int {
    if data.len() == 1 {
        data[0] as int
    } else {
        data[0] + 256 * data[1]
    }
}

/// The value of an item's data where it is signed: two's complement in the width of the data.
pub open spec fn signed_value(data: Seq<u8>) -> int {
    if data.len() == 1 {
        if data[0] < 0x80 {
            data[0] as int
        } else {
            data[0] - 0x100
        }
    } else if data.len() == 2 {
        from_le16(data)
    } else {
        data[0] + 256 * data[1] + 65536 * from_le16(data.skip(2))
    }
}

/// The item that a host reads at the start of a descriptor, and `None` where there is none of the
/// items above.
pub open spec fn read_item(bytes: Seq<u8>) -> Option<Item> {
    let tag = bytes[0] - bytes[0] % 4;
    let width = data_width(bytes[0]);
    let data = bytes.subrange(1, 1 + width);
    if bytes.len() < 1 + width {
        None
    } else if width == 0 {
        if tag == 0xc0 {
            Some(Item::EndCollection)
        } else {
            None
        }
    } else if tag == 0x04 {
        Some(Item::UsagePage(unsigned_value(data) as u16))
    } else if tag == 0x08 {
        Some(Item::Usage(unsigned_value(data) as u16))
    } else if tag == 0x14 {
        Some(Item::LogicalMinimum(signed_value(data) as i32))
    } else if tag == 0x18 {
        Some(Item::UsageMinimum(unsigned_value(data) as u16))
    } else if tag == 0x24 {
        Some(Item::LogicalMaximum(signed_value(data) as i32))
    } else if tag == 0x28 {
        Some(Item::UsageMaximum(unsigned_value(data) as u16))
    } else if tag == 0x34 {
        Some(Item::PhysicalMinimum(data[0]))
    } else if tag == 0x44 {
        Some(Item::PhysicalMaximum(data[0]))
    } else if tag == 0x74 {
        Some(Item::ReportSize(data[0]))
    } else if tag == 0x80 {
        Some(Item::Input(data[0]))
    } else if tag == 0x84 {
        Some(Item::ReportId(data[0]))
    } else if tag == 0x90 {
        Some(Item::Output(data[0]))
    } else if tag == 0x94 {
        Some(Item::ReportCount(data[0]))
    } else if tag == 0xa0 {
        Some(Item::Collection(data[0]))
    } else if tag == 0xb0 {
        Some(Item::Feature(data[0]))
    } else {
        None
    }
}

/// The items that a host reads from a whole descriptor, and `None` where it cannot.
pub open spec fn decode(bytes: Seq<u8>) -> Option<Seq<Item>>
    decreases bytes.len(),
{
    if bytes.len() == 0 {
        Some(Seq::empty())
    } else {
        match read_item(bytes) {
            Some(item) => match decode(bytes.skip(1 + data_width(bytes[0]))) {
                Some(rest) => Some(seq![item] + rest),
                None => None,
            },
            None => None,
        }
    }
}

/// Whether a signed value reads back as itself. A value whose width ends in a byte between 0x80
/// and 0xfe does not: the host takes it for negative.
pub open spec fn reads_back(item: Item) -> bool {
    match item {
        Item::LogicalMinimum(v) | Item::LogicalMaximum(v) => !(0x80 <= v < 0xff) && !(0x8000 <= v
            < 0xff00),
        _ => true,
    }
}

/// Whether the first `n` of some items read back as themselves.
pub open spec fn first_read_back(items: Seq<Item>, n: nat) -> bool
    decreases n,
{
    n == 0 || (reads_back(items[n - 1]) && first_read_back(items, (n - 1) as nat))
}

/// Whether all of some items read back as themselves.
pub open spec fn all_read_back(items: Seq<Item>) -> bool {
    forall|i: int| 0 <= i < items.len() ==> reads_back(#[trigger] items[i])
}

pub proof fn lemma_all_read_back(items: Seq<Item>, n: nat)
    requires
        first_read_back(items, n),
        n <= items.len(),
    ensures
        forall|i: int| 0 <= i < n ==> reads_back(#[trigger] items[i]),
    decreases n,
{
    if n > 0 {
        lemma_all_read_back(items, (n - 1) as nat);
    }
}

proof fn lemma_unsigned_reads_back(v: u16)
    ensures
        unsigned_value(unsigned_data(v as int)) == v,
        unsigned_data(v as int).len() == 1 || unsigned_data(v as int).len() == 2,
{
}

proof fn lemma_signed_reads_back(v: i32)
    requires
        !(0x80 <= v < 0xff),
        !(0x8000 <= v < 0xff00),
    ensures
        signed_value(signed_data(v as int)) == v,
        signed_data(v as int).len() == 1 || signed_data(v as int).len() == 2 || signed_data(
            v as int,
        ).len() == 4,
{
    let data = signed_data(v as int);
    if data.len() == 4 {
        assert(data.skip(2) =~= le16(v as int / 65536));
    }
}

/// What a host finds at the start of a short item and more.
proof fn lemma_read_short_item(tag: int, data: Seq<u8>, rest: Seq<u8>)
    requires
        0 <= tag <= 0xfc,
        tag % 4 == 0,
        data.len() == 1 || data.len() == 2 || data.len() == 4,
    ensures
        ({
            let bytes = short_item(tag, data) + rest;
            &&& bytes[0] - bytes[0] % 4 == tag
            &&& data_width(bytes[0]) == data.len()
            &&& bytes.subrange(1, 1 + data.len() as int) == data
            &&& bytes.skip(1 + data.len() as int) == rest
            &&& bytes.len() == 1 + data.len() + rest.len()
        }),
{
    let bytes = short_item(tag, data) + rest;
    assert(bytes.subrange(1, 1 + data.len() as int) =~= data);
    assert(bytes.skip(1 + data.len() as int) =~= rest);
}

/// A host that reads at an item finds this item, and behind it whatever follows.
proof fn lemma_item_reads_back(item: Item, rest: Seq<u8>)
    requires
        reads_back(item),
    ensures
        read_item(item.bytes() + rest) == Some(item),
        (item.bytes() + rest).skip(1 + data_width((item.bytes() + rest)[0])) == rest,
{
    match item {
        Item::UsagePage(v) => {
            lemma_unsigned_reads_back(v);
            lemma_read_short_item(0x04, unsigned_data(v as int), rest);
        },
        Item::Usage(v) => {
            lemma_unsigned_reads_back(v);
            lemma_read_short_item(0x08, unsigned_data(v as int), rest);
        },
        Item::LogicalMinimum(v) => {
            lemma_signed_reads_back(v);
            lemma_read_short_item(0x14, signed_data(v as int), rest);
        },
        Item::UsageMinimum(v) => {
            lemma_unsigned_reads_back(v);
            lemma_read_short_item(0x18, unsigned_data(v as int), rest);
        },
        Item::LogicalMaximum(v) => {
            lemma_signed_reads_back(v);
            lemma_read_short_item(0x24, signed_data(v as int), rest);
        },
        Item::UsageMaximum(v) => {
            lemma_unsigned_reads_back(v);
            lemma_read_short_item(0x28, unsigned_data(v as int), rest);
        },
        Item::PhysicalMinimum(v) => lemma_read_short_item(0x34, seq![v], rest),
        Item::PhysicalMaximum(v) => lemma_read_short_item(0x44, seq![v], rest),
        Item::ReportSize(v) => lemma_read_short_item(0x74, seq![v], rest),
        Item::Input(v) => lemma_read_short_item(0x80, seq![v], rest),
        Item::ReportId(v) => lemma_read_short_item(0x84, seq![v], rest),
        Item::Output(v) => lemma_read_short_item(0x90, seq![v], rest),
        Item::ReportCount(v) => lemma_read_short_item(0x94, seq![v], rest),
        Item::Collection(v) => lemma_read_short_item(0xa0, seq![v], rest),
        Item::Feature(v) => lemma_read_short_item(0xb0, seq![v], rest),
        Item::EndCollection => {
            assert((item.bytes() + rest).skip(1) =~= rest);
        },
    }
}

/// The bytes of the first item come first.
proof fn lemma_encode_first(items: Seq<Item>)
    requires
        items.len() > 0,
    ensures
        encode(items) == items[0].bytes() + encode(items.skip(1)),
    decreases items.len(),
{
    if items.len() == 1 {
        assert(items.drop_last() =~= Seq::empty());
        assert(items.skip(1) =~= Seq::empty());
    } else {
        lemma_encode_first(items.drop_last());
        assert(items.skip(1).drop_last() =~= items.drop_last().skip(1));
        assert(encode(items) =~= items[0].bytes() + encode(items.skip(1)));
    }
}

/// A host reads back from a descriptor exactly the items that were written, as long as their
/// signed values read back as themselves.
pub proof fn law_decode_inverts_encode(items: Seq<Item>)
    requires
        all_read_back(items),
    ensures
        decode(encode(items)) == Some(items),
    decreases items.len(),
{
    if items.len() > 0 {
        lemma_encode_first(items);
        lemma_item_reads_back(items[0], encode(items.skip(1)));
        law_decode_inverts_encode(items.skip(1));
        assert(seq![items[0]] + items.skip(1) =~= items);
    }
}

/// A report descriptor under construction.
pub struct DescriptorBuilder {
    bytes: Vec<u8>,
    items: Ghost<Seq<Item>>,
}

impl View for DescriptorBuilder {
    type V = Seq<Item>;

    /// The items written so far.
    closed spec fn view(&self) -> Seq<Item> {
        self.items@
    }
}

impl DescriptorBuilder {
    /// The bytes are those of the items.
    pub closed spec fn wf(&self) -> bool {
        self.bytes@ == encode(self.items@)
    }

    pub fn new() -> (b: Self)
        ensures
            b.wf(),
            b@ == Seq::<Item>::empty(),
    {
        DescriptorBuilder { bytes: Vec::new(), items: Ghost(Seq::empty()) }
    }

    /// Appends one byte of data behind a one-byte prefix.
    fn put_u8(&mut self, tag: u8, v: u8)
        requires
            tag <= 0xfc,
        ensures
            final(self).bytes@ == old(self).bytes@ + short_item(tag as int, seq![v]),
            final(self).items == old(self).items,
    {
        self.bytes.push(tag + 1);
        self.bytes.push(v);
        assert(self.bytes@ =~= old(self).bytes@ + short_item(tag as int, seq![v]));
    }

    fn put_unsigned(&mut self, tag: u8, v: u16)
        requires
            tag <= 0xfc,
        ensures
            final(self).bytes@ == old(self).bytes@ + short_item(
                tag as int,
                unsigned_data(v as int),
            ),
            final(self).items == old(self).items,
    {
        if v < 0x100 {
            self.put_u8(tag, v as u8);
        } else {
            self.bytes.push(tag + 2);
            self.bytes.push((v % 256) as u8);
            self.bytes.push((v / 256) as u8);
            assert(self.bytes@ =~= old(self).bytes@ + short_item(tag as int, le16(v as int)));
        }
    }

    fn put_signed(&mut self, tag: u8, v: i32)
        requires
            tag <= 0xfc,
        ensures
            final(self).bytes@ == old(self).bytes@ + short_item(tag as int, signed_data(v as int)),
            final(self).items == old(self).items,
    {
        if 0 <= v && v < 0xff {
            self.put_u8(tag, v as u8);
        } else if 0 <= v && v < 0xff00 {
            self.bytes.push(tag + 2);
            self.bytes.push((v % 256) as u8);
            self.bytes.push((v / 256) as u8);
            assert(self.bytes@ =~= old(self).bytes@ + short_item(tag as int, le16(v as int)));
        } else {
            let bytes = i32_le_bytes(v);
            self.bytes.push(tag + 3);
            self.bytes.push(bytes.0);
            self.bytes.push(bytes.1);
            self.bytes.push(bytes.2);
            self.bytes.push(bytes.3);
            let ghost data = seq![bytes.0, bytes.1, bytes.2, bytes.3];
            assert(data == le32(v as int));
            assert(self.bytes@ =~= old(self).bytes@ + short_item(tag as int, data));
        }
    }

    /// Appends an item.
    pub fn item(&mut self, item: Item)
        requires
            old(self).wf(),
        ensures
            final(self).wf(),
            final(self)@ == old(self)@.push(item),
    {
        match item {
            Item::UsagePage(v) => self.put_unsigned(0x04, v),
            Item::Usage(v) => self.put_unsigned(0x08, v),
            Item::LogicalMinimum(v) => self.put_signed(0x14, v),
            Item::UsageMinimum(v) => self.put_unsigned(0x18, v),
            Item::LogicalMaximum(v) => self.put_signed(0x24, v),
            Item::UsageMaximum(v) => self.put_unsigned(0x28, v),
            Item::PhysicalMinimum(v) => self.put_u8(0x34, v),
            Item::PhysicalMaximum(v) => self.put_u8(0x44, v),
            Item::ReportSize(v) => self.put_u8(0x74, v),
            Item::Input(v) => self.put_u8(0x80, v),
            Item::ReportId(v) => self.put_u8(0x84, v),
            Item::Output(v) => self.put_u8(0x90, v),
            Item::ReportCount(v) => self.put_u8(0x94, v),
            Item::Collection(v) => self.put_u8(0xa0, v),
            Item::Feature(v) => self.put_u8(0xb0, v),
            Item::EndCollection => {
                self.bytes.push(0xc0);
                assert(self.bytes@ =~= old(self).bytes@ + seq![0xc0u8]);
            },
        }
        proof {
            lemma_encode_push(old(self).items@, item);
            self.items@ = self.items@.push(item);
        }
    }

    /// The finished descriptor.
    pub fn finish(self) -> (bytes: Vec<u8>)
        requires
            self.wf(),
        ensures
            bytes@ == encode(self@),
    {
        self.bytes
    }
}

/// An item is a prefix and the data of its value. The prefix is the tag, and the width of the data
/// in its two lowest bits, where 3 stands for four bytes; the bytes of the data add up to the
/// value, low byte first, where a negative value counts from 2 to the 32nd downwards.
pub open spec fn is_item(bytes: Seq<u8>, tag: int, value: int) -> bool {
    let unsigned = if value < 0 {
        value + 0x1_0000_0000
    } else {
        value
    };
    ||| bytes.len() == 2 && bytes[0] == tag + 1 && bytes[1] == unsigned
    ||| bytes.len() == 3 && bytes[0] == tag + 2 && bytes[1] + 256 * bytes[2] == unsigned
    ||| bytes.len() == 5 && bytes[0] == tag + 3 && bytes[1] + 256 * bytes[2] + 65536 * bytes[3]
        + 0x100_0000 * bytes[4] == unsigned
}

proof fn lemma_unsigned_item(tag: int, v: u16)
    requires
        0 <= tag <= 0xfc,
    ensures
        is_item(short_item(tag, unsigned_data(v as int)), tag, v as int),
{
    crate::wire::law_le16_bytes_add_up(v as int);
}

proof fn lemma_signed_item(tag: int, v: i32)
    requires
        0 <= tag <= 0xfc,
    ensures
        is_item(short_item(tag, signed_data(v as int)), tag, v as int),
{
    if 0 <= v < 0xff00 {
        crate::wire::law_le16_bytes_add_up(v as int);
    } else {
        crate::wire::law_le32_bytes_add_up(v as int);
        let bytes = short_item(tag, signed_data(v as int));
        let data = le32(v as int);
        assert(bytes.len() == 5 && bytes[0] == tag + 3);
        assert(bytes[1] == data[0] && bytes[2] == data[1] && bytes[3] == data[2] && bytes[4]
            == data[3]);
    }
}

/// Each kind of item has its tag, and its data are its value, whatever that is.
pub proof fn law_items_hold_tag_and_value(w: u16, s: i32, b: u8)
    ensures
        is_item(Item::UsagePage(w).bytes(), 0x04, w as int),
        is_item(Item::Usage(w).bytes(), 0x08, w as int),
        is_item(Item::UsageMinimum(w).bytes(), 0x18, w as int),
        is_item(Item::UsageMaximum(w).bytes(), 0x28, w as int),
        is_item(Item::LogicalMinimum(s).bytes(), 0x14, s as int),
        is_item(Item::LogicalMaximum(s).bytes(), 0x24, s as int),
        is_item(Item::PhysicalMinimum(b).bytes(), 0x34, b as int),
        is_item(Item::PhysicalMaximum(b).bytes(), 0x44, b as int),
        is_item(Item::ReportSize(b).bytes(), 0x74, b as int),
        is_item(Item::ReportCount(b).bytes(), 0x94, b as int),
        is_item(Item::ReportId(b).bytes(), 0x84, b as int),
        is_item(Item::Input(b).bytes(), 0x80, b as int),
        is_item(Item::Output(b).bytes(), 0x90, b as int),
        is_item(Item::Feature(b).bytes(), 0xb0, b as int),
        is_item(Item::Collection(b).bytes(), 0xa0, b as int),
        Item::EndCollection.bytes() == seq![0xc0u8],
{
    lemma_unsigned_item(0x04, w);
    lemma_unsigned_item(0x08, w);
    lemma_unsigned_item(0x18, w);
    lemma_unsigned_item(0x28, w);
    lemma_signed_item(0x14, s);
    lemma_signed_item(0x24, s);
}

/// An item takes the narrowest data that its value allows: an unsigned value one byte below 256 and
/// otherwise two; a signed value one byte below 255, two below 65280, and otherwise four, which
/// every negative value takes.
pub proof fn law_item_widths(w: u16, s: i32)
    ensures
        Item::UsagePage(w).bytes().len() == (if w < 256 {
            2int
        } else {
            3
        }),
        Item::Usage(w).bytes().len() == Item::UsagePage(w).bytes().len(),
        Item::UsageMinimum(w).bytes().len() == Item::UsagePage(w).bytes().len(),
        Item::UsageMaximum(w).bytes().len() == Item::UsagePage(w).bytes().len(),
        Item::LogicalMinimum(s).bytes().len() == (if 0 <= s < 255 {
            2int
        } else if 0 <= s < 65280 {
            3
        } else {
            5
        }),
        Item::LogicalMaximum(s).bytes().len() == Item::LogicalMinimum(s).bytes().len(),
{
}

/// A descriptor is the bytes of its items, one behind the other and nothing between them.
pub proof fn law_descriptor_is_its_items_in_a_row(items: Seq<Item>, item: Item)
    ensures
        encode(Seq::empty()) == Seq::<u8>::empty(),
        encode(items.push(item)) == encode(items) + item.bytes(),
{
    lemma_encode_push(items, item);
}

} // verus!
