//! Touch points and the nibble-interleaved coordinate packing.

use vstd::prelude::*;

verus! {

/// A single touch contact.
#[derive(Copy, Clone, Eq, PartialEq, Ord, PartialOrd, Hash, Debug, Structural)]
pub struct Point {
    pub x: u16,
    pub y: u16,
}

/// The "contact valid" flag of a record: bit 7 of its first byte.
pub open spec fn contact_valid(head: u8) -> bool {
    head >= 128
}

/// The first packed value of a three-byte group: bits 6 to 4 of `head`
/// above the eight bits of `low`.
pub open spec fn packed_x(head: u8, low: u8) -> int {
    ((head as int / 16) % 8) * 256 + low as int
}

/// The second packed value of a three-byte group: bits 3 to 0 of `head`
/// above the eight bits of `low`.
pub open spec fn packed_y(head: u8, low: u8) -> int {
    (head as int % 16) * 256 + low as int
}

/// The point a contact record describes, if its slot holds a contact.
/// Only the first three bytes of the record are read.
pub open spec fn point_of(record: Seq<u8>) -> Option<Point> {
    if record.len() >= 3 && contact_valid(record[0]) {
        Some(
            (Point {
                x: packed_x(record[0], record[1]) as u16,
                y: packed_y(record[0], record[2]) as u16,
            }),
        )
    } else {
        None
    }
}

/// Unpacks the first value of a three-byte group.
pub fn unpack_x(head: u8, low: u8) -> (x: u16)
    ensures
        x == packed_x(head, low),
        x <= 0x7FF,
{
    let x: u16 = (((head & 0b0111_0000) as u16) << 4) | (low as u16);
    assert(x == ((head as u16 / 16) % 8) * 256 + low as u16) by (bit_vector)
        requires
            x == (((head & 0b0111_0000) as u16) << 4) | (low as u16),
    ;
    x
}

/// Unpacks the second value of a three-byte group.
pub fn unpack_y(head: u8, low: u8) -> (y: u16)
    ensures
        y == packed_y(head, low),
        y <= 0xFFF,
{
    let y: u16 = (((head & 0b0000_1111) as u16) << 8) | (low as u16);
    assert(y == (head as u16 % 16) * 256 + low as u16) by (bit_vector)
        requires
            y == (((head & 0b0000_1111) as u16) << 8) | (low as u16),
    ;
    y
}

impl Point {
    /// Decodes one four-byte contact record.
    pub fn from_record(record: &[u8; 4]) -> (r: Option<Point>)
        ensures
            r == point_of(record@),
            r is Some <==> contact_valid(record[0]),
    {
        let head: u8 = record[0];
        assert((head >> 7 == 0) <==> head < 128) by (bit_vector);
        if head >> 7 == 0 {
            None
        } else {
            Some(Point { x: unpack_x(head, record[1]), y: unpack_y(head, record[2]) })
        }
    }
}

/// A record whose first byte has bit 7 clear describes no point,
/// whatever its other bits are.
pub proof fn lemma_clear_valid_bit_is_no_point(record: Seq<u8>)
    requires
        record.len() > 0,
        record[0] & 0x80 == 0,
    ensures
        point_of(record) is None,
{
    let head = record[0];
    assert(head & 0x80 == 0 ==> head < 128) by (bit_vector);
}

/// A record whose first byte has bit 7 set describes a point, and the
/// point depends on the first three bytes only.
pub proof fn lemma_set_valid_bit_is_point(record: Seq<u8>)
    requires
        record.len() >= 3,
        record[0] & 0x80 != 0,
    ensures
        point_of(record) is Some,
        point_of(record) == point_of(record.take(3)),
{
    let head = record[0];
    assert(head & 0x80 != 0 ==> head >= 128) by (bit_vector);
}

/// Decoded coordinates are the packed values themselves, nothing is
/// lost on the way into sixteen bits, and they fit in twelve bits.
pub proof fn lemma_point_fits_twelve_bits(record: Seq<u8>)
    ensures
        point_of(record) matches Some(p) ==> {
            &&& p.x == packed_x(record[0], record[1])
            &&& p.y == packed_y(record[0], record[2])
            &&& p.x <= 4095
            &&& p.y <= 4095
        },
{
}

} // verus!
