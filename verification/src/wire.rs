//! Integers as they lie in a packet: what a run of bytes denotes, and the
//! readers that fetch them.
use byteorder::{ByteOrder, LittleEndian};
use vstd::prelude::*;

verus! {

/// The unsigned 16-bit number whose little-endian encoding is the first
/// two bytes of `s`.
pub open spec fn le_u16(s: Seq<u8>) -> u16 {
    (s[0] as int + s[1] as int * 0x100) as u16
}

/// The unsigned 32-bit number whose little-endian encoding is the first
/// four bytes of `s`.
pub open spec fn le_u32(s: Seq<u8>) -> u32 {
    (s[0] as int + s[1] as int * 0x100 + s[2] as int * 0x1_0000 + s[3] as int * 0x100_0000) as u32
}

/// The signed 32-bit number whose two's-complement little-endian encoding
/// is the first four bytes of `s`.
pub open spec fn le_i32(s: Seq<u8>) -> i32 {
    let u = le_u32(s) as int;
    if u < 0x8000_0000 {
        u as i32
    } else {
        (u - 0x1_0000_0000) as i32
    }
}

/// The number that the bytes of `s` denote when read as base-256 digits,
/// most significant first.
pub open spec fn be_value(s: Seq<u8>) -> nat
    decreases s.len(),
{
    if s.len() == 0 {
        0
    } else {
        be_value(s.drop_last()) * 256 + s.last() as nat
    }
}

/// `byteorder::LittleEndian::read_u16`: the first two bytes of `buf`, read
/// as a little-endian unsigned number. The outside function panics on a
/// shorter buffer, which `requires` leaves out.
#[verifier::external_body]
pub(crate) fn read_u16_le(buf: &[u8]) -> (value: u16)
    requires
        buf@.len() >= 2,
    ensures
        value == le_u16(buf@),
{
    LittleEndian::read_u16(buf)
}

/// `byteorder::LittleEndian::read_u32`: the first four bytes of `buf`, read
/// as a little-endian unsigned number. The outside function panics on a
/// shorter buffer, which `requires` leaves out.
#[verifier::external_body]
pub(crate) fn read_u32_le(buf: &[u8]) -> (value: u32)
    requires
        buf@.len() >= 4,
    ensures
        value == le_u32(buf@),
{
    LittleEndian::read_u32(buf)
}

/// `byteorder::LittleEndian::read_i32`: the first four bytes of `buf`, read
/// as a little-endian two's-complement number. The outside function panics
/// on a shorter buffer, which `requires` leaves out.
#[verifier::external_body]
pub(crate) fn read_i32_le(buf: &[u8]) -> (value: i32)
    requires
        buf@.len() >= 4,
    ensures
        value == le_i32(buf@),
{
    LittleEndian::read_i32(buf)
}

/// A big-endian number of `n` digits is below `256^n`; stated for the
/// eight-byte case that a timestamp needs, digit by digit.
proof fn lemma_be_value_bound(s: Seq<u8>)
    requires
        s.len() <= 8,
    ensures
        s.len() == 0 ==> be_value(s) == 0,
        s.len() == 1 ==> be_value(s) < 0x100,
        s.len() == 2 ==> be_value(s) < 0x1_0000,
        s.len() == 3 ==> be_value(s) < 0x100_0000,
        s.len() == 4 ==> be_value(s) < 0x1_0000_0000,
        s.len() == 5 ==> be_value(s) < 0x100_0000_0000,
        s.len() == 6 ==> be_value(s) < 0x1_0000_0000_0000,
        s.len() == 7 ==> be_value(s) < 0x100_0000_0000_0000,
        s.len() == 8 ==> be_value(s) < 0x1_0000_0000_0000_0000,
    decreases s.len(),
{
    if s.len() > 0 {
        lemma_be_value_bound(s.drop_last());
    }
}

/// Reads the eight-byte timestamp field: the first eight bytes of `data` as
/// one big-endian unsigned number.
pub fn parse_timestamp(data: &[u8]) -> (val: u64)
    requires
        data@.len() >= 8,
    ensures
        val == be_value(data@.subrange(0, 8)),
{
    let mut val: u64 = 0;
    let mut i: usize = 0;
    while i < 8
        invariant
            i <= 8,
            data@.len() >= 8,
            val == be_value(data@.subrange(0, i as int)),
        decreases 8 - i,
    {
        let byte: u8 = data[i];
        proof {
            let prefix = data@.subrange(0, i as int);
            let next = data@.subrange(0, i + 1);
            assert(next.drop_last() =~= prefix);
            assert(next.last() == byte);
            lemma_be_value_bound(prefix);
            lemma_be_value_bound(next);
        }
        val = val * 256 + byte as u64;
        i = i + 1;
    }
    val
}

} // verus!
