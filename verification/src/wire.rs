//! Byte-level encoding of input reports.

use vstd::prelude::*;

verus! {

/// The buffer is too small for the report.
#[derive(Debug, Clone, Copy, PartialEq, Eq, Structural)]
pub struct ReportOverflow;

/// The two's complement little-endian encoding of `v` in two bytes.
pub open spec fn le16(v: int) -> Seq<u8> {
    seq![(v % 256) as u8, ((v / 256) % 256) as u8]
}

/// The two's complement little-endian encoding of `v` in four bytes.
pub open spec fn le32(v: int) -> Seq<u8> {
    le16(v) + le16(v / 65536)
}

/// `buffer` with its first bytes replaced by `bytes`.
pub open spec fn overwrite(buffer: Seq<u8>, bytes: Seq<u8>) -> Seq<u8> {
    bytes + buffer.skip(bytes.len() as int)
}

/// What [`AsInputReport::serialize`] returns for a report of `wire` bytes and a buffer of `room`
/// bytes.
pub open spec fn serialize_result(wire: nat, room: nat) -> Result<usize, ReportOverflow> {
    if room < wire {
        Err(ReportOverflow)
    } else {
        Ok(wire as usize)
    }
}

/// Report types which serialize into input reports, ready for transmission.
pub trait AsInputReport {
    /// The bytes of the report on the wire.
    spec fn wire(&self) -> Seq<u8>;

    /// Writes the report to the start of `buffer` and returns its length. A buffer that cannot
    /// hold the whole report is refused and left as it was.
    fn serialize(&self, buffer: &mut [u8]) -> (result: Result<usize, ReportOverflow>)
        ensures
            result == serialize_result(self.wire().len(), old(buffer)@.len()),
            final(buffer)@ == (match result {
                Ok(n) => overwrite(old(buffer)@, self.wire()),
                Err(_) => old(buffer)@,
            }),
    ;
}

/// The little-endian bytes of a signed 16-bit value.
pub fn i16_le_bytes(v: i16) -> (bytes: (u8, u8))
    ensures
        seq![bytes.0, bytes.1] == le16(v as int),
{
    let u: u16 = if v >= 0 {
        v as u16
    } else {
        (v as i32 + 65536) as u16
    };
    ((u % 256) as u8, (u / 256) as u8)
}

/// The little-endian bytes of a signed 32-bit value.
pub fn i32_le_bytes(v: i32) -> (bytes: (u8, u8, u8, u8))
    ensures
        seq![bytes.0, bytes.1, bytes.2, bytes.3] == le32(v as int),
{
    let u: u64 = if v >= 0 {
        v as u64
    } else {
        (v as i64 + 0x1_0000_0000) as u64
    };
    let low: u64 = u % 65536;
    let high: u64 = u / 65536;
    proof {
        let d: int = if v >= 0 {
            0
        } else {
            65536
        };
        assert(v == low + 65536 * (high - d));
        assert(v / 65536 == high - d);
        assert(v % 256 == low % 256);
        assert(v / 256 == low / 256 + 256 * (high - d));
        assert((v / 256) % 256 == low / 256);
        assert((high - d) % 256 == high % 256);
        assert(((high - d) / 256) % 256 == high / 256);
    }
    ((low % 256) as u8, (low / 256) as u8, (high % 256) as u8, (high / 256) as u8)
}

/// The value that two little-endian bytes stand for.
pub open spec fn from_le16(bytes: Seq<u8>) -> int {
    let unsigned = bytes[0] + 256 * bytes[1];
    if unsigned < 32768 {
        unsigned
    } else {
        unsigned - 65536
    }
}

/// Every signed 16-bit value survives its little-endian encoding.
pub proof fn law_le16_is_lossless(v: i16)
    ensures
        from_le16(le16(v as int)) == v,
{
}

/// The two bytes of [`le16`] add up to the value, the first one counting once and the second one
/// 256 times, where a negative value counts from 65536 downwards.
pub proof fn law_le16_bytes_add_up(v: int)
    requires
        -32768 <= v < 65536,
    ensures
        le16(v).len() == 2,
        le16(v)[0] + 256 * le16(v)[1] == (if v < 0 {
            v + 65536
        } else {
            v
        }),
{
}

/// The four bytes of [`le32`] add up to the value in the same way.
pub proof fn law_le32_bytes_add_up(v: int)
    requires
        -0x8000_0000 <= v < 0x1_0000_0000,
    ensures
        le32(v).len() == 4,
        le32(v)[0] + 256 * le32(v)[1] + 65536 * le32(v)[2] + 0x100_0000 * le32(v)[3] == (if v < 0 {
            v + 0x1_0000_0000
        } else {
            v
        }),
{
    let low = v % 65536;
    let high = v / 65536;
    assert(v == low + 65536 * high);
    assert(low == v % 256 + 256 * ((v / 256) % 256));
    assert(high % 256 + 256 * ((high / 256) % 256) == (if v < 0 {
        high + 65536
    } else {
        high
    }));
    assert(le32(v)[0] == le16(v)[0] && le32(v)[1] == le16(v)[1]);
    assert(le32(v)[2] == le16(high)[0] && le32(v)[3] == le16(high)[1]);
}

/// Serializing succeeds exactly where the buffer holds the whole report, and then returns the
/// length of the report, which stands at the start of the buffer in front of what was there.
pub proof fn law_serialize_fills_the_start_of_the_buffer(wire: Seq<u8>, buffer: Seq<u8>)
    requires
        wire.len() <= usize::MAX,
    ensures
        buffer.len() < wire.len() ==> serialize_result(wire.len(), buffer.len()) == Err::<
            usize,
            ReportOverflow,
        >(ReportOverflow),
        buffer.len() >= wire.len() ==> {
            let after = overwrite(buffer, wire);
            &&& serialize_result(wire.len(), buffer.len()) == Ok::<usize, ReportOverflow>(
                wire.len() as usize,
            )
            &&& after.len() == buffer.len()
            &&& forall|i: int| 0 <= i < wire.len() ==> #[trigger] after[i] == wire[i]
            &&& forall|i: int| wire.len() <= i < buffer.len() ==> #[trigger] after[i] == buffer[i]
        },
{
}

} // verus!
