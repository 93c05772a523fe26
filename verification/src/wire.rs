//! Big-endian wire primitives, and the byte cursors of the `bytebuffer` crate
//! that the codec reads from and writes to.

use bytebuffer::{ByteBuffer, ByteReader};
use vstd::prelude::*;

verus! {

/// The two bytes of `v`, most significant first.
pub open spec fn u16_bytes(v: u16) -> Seq<u8> {
    seq![(v / 256) as u8, (v % 256) as u8]
}

/// The four bytes of `v`, most significant first.
pub open spec fn u32_bytes(v: u32) -> Seq<u8> {
    seq![
        (v / 0x100_0000) as u8,
        ((v / 0x1_0000) % 256) as u8,
        ((v / 0x100) % 256) as u8,
        (v % 256) as u8,
    ]
}

/// The number whose big-endian bytes are `s[0]`, `s[1]`.
pub open spec fn u16_value(s: Seq<u8>) -> u16 {
    (s[0] as int * 256 + s[1] as int) as u16
}

/// The number whose big-endian bytes are `s[0]` .. `s[3]`.
pub open spec fn u32_value(s: Seq<u8>) -> u32 {
    (s[0] as int * 0x100_0000 + s[1] as int * 0x1_0000 + s[2] as int * 0x100 + s[3] as int) as u32
}

/// The bit pattern of a signed 32-bit number, read as unsigned (two's complement).
pub open spec fn i32_bits(v: i32) -> u32 {
    if v >= 0 {
        v as u32
    } else {
        (v + 0x1_0000_0000) as u32
    }
}

/// The signed number with the bit pattern `u`.
pub open spec fn i32_of_bits(u: u32) -> i32 {
    if u < 0x8000_0000 {
        u as i32
    } else {
        (u - 0x1_0000_0000) as i32
    }
}

/// The four big-endian bytes of a signed number.
pub open spec fn i32_bytes(v: i32) -> Seq<u8> {
    u32_bytes(i32_bits(v))
}

pub proof fn lemma_u16_round_trip(v: u16)
    ensures
        u16_bytes(v).len() == 2,
        u16_value(u16_bytes(v)) == v,
{
}

pub proof fn lemma_u32_round_trip(v: u32)
    ensures
        u32_bytes(v).len() == 4,
        u32_value(u32_bytes(v)) == v,
{
}

pub proof fn lemma_i32_round_trip(v: i32)
    ensures
        i32_bytes(v).len() == 4,
        i32_of_bits(u32_value(i32_bytes(v))) == v,
{
    lemma_u32_round_trip(i32_bits(v));
}

/// `bytebuffer::ByteBuffer`, the buffer that packets are written into. Of
/// its inside only what the names below say is known.
#[verifier::external_type_specification]
#[verifier::external_body]
pub struct ExByteBuffer(ByteBuffer);

/// `bytebuffer::ByteReader`, the cursor that packets are read with. Of its
/// inside only what the names below say is known.
#[verifier::external_type_specification]
#[verifier::external_body]
pub struct ExByteReader<'a>(ByteReader<'a>);

/// The bytes that a write buffer holds.
pub uninterp spec fn buffer_data(b: ByteBuffer) -> Seq<u8>;

/// Whether a write buffer appends in big-endian order: its write cursor stands
/// at the end of its data, no bit write is pending, and its byte order is big endian.
pub uninterp spec fn buffer_appends(b: ByteBuffer) -> bool;

/// The bytes that a reader reads from.
pub uninterp spec fn reader_data(r: ByteReader<'_>) -> Seq<u8>;

/// The position of a reader's cursor.
pub uninterp spec fn reader_pos(r: ByteReader<'_>) -> nat;

/// Whether a reader stands on a byte boundary (no bit read is pending) and
/// reads in big-endian order.
pub uninterp spec fn reader_aligned(r: ByteReader<'_>) -> bool;

/// A reader in the state that the codec keeps it in.
pub open spec fn reader_ok(r: ByteReader<'_>) -> bool {
    reader_aligned(r) && reader_pos(r) <= reader_data(r).len()
}

/// `ByteBuffer::new`: an empty buffer, big endian, cursor at 0.
#[verifier::external_body]
pub(crate) fn buffer_new() -> (b: ByteBuffer)
    ensures
        buffer_data(b) == Seq::<u8>::empty(),
        buffer_appends(b),
{
    ByteBuffer::new()
}

/// `ByteBuffer::write_u8` on an appending buffer adds the byte at the end.
#[verifier::external_body]
pub(crate) fn buffer_write_u8(b: &mut ByteBuffer, v: u8)
    requires
        buffer_appends(*old(b)),
    ensures
        buffer_appends(*final(b)),
        buffer_data(*final(b)) == buffer_data(*old(b)).push(v),
{
    b.write_u8(v)
}

/// `ByteBuffer::write_u16` on an appending buffer adds the two bytes of `v`,
/// most significant first.
#[verifier::external_body]
pub(crate) fn buffer_write_u16(b: &mut ByteBuffer, v: u16)
    requires
        buffer_appends(*old(b)),
    ensures
        buffer_appends(*final(b)),
        buffer_data(*final(b)) == buffer_data(*old(b)) + u16_bytes(v),
{
    b.write_u16(v)
}

/// `ByteBuffer::write_u32` on an appending buffer adds the four bytes of `v`,
/// most significant first.
#[verifier::external_body]
pub(crate) fn buffer_write_u32(b: &mut ByteBuffer, v: u32)
    requires
        buffer_appends(*old(b)),
    ensures
        buffer_appends(*final(b)),
        buffer_data(*final(b)) == buffer_data(*old(b)) + u32_bytes(v),
{
    b.write_u32(v)
}

/// `ByteBuffer::write_i32` on an appending buffer adds the four bytes of the
/// two's complement bit pattern of `v`, most significant first.
#[verifier::external_body]
pub(crate) fn buffer_write_i32(b: &mut ByteBuffer, v: i32)
    requires
        buffer_appends(*old(b)),
    ensures
        buffer_appends(*final(b)),
        buffer_data(*final(b)) == buffer_data(*old(b)) + i32_bytes(v),
{
    b.write_i32(v)
}

/// `ByteBuffer::write_bytes` on an appending buffer adds `bytes` at the end.
#[verifier::external_body]
pub(crate) fn buffer_write_bytes(b: &mut ByteBuffer, bytes: &[u8])
    requires
        buffer_appends(*old(b)),
    ensures
        buffer_appends(*final(b)),
        buffer_data(*final(b)) == buffer_data(*old(b)) + bytes@,
{
    b.write_bytes(bytes)
}

/// `ByteBuffer::into_vec`: the bytes that the buffer holds.
#[verifier::external_body]
pub(crate) fn buffer_into_vec(b: ByteBuffer) -> (out: Vec<u8>)
    ensures
        out@ == buffer_data(b),
{
    b.into_vec()
}

/// `ByteReader::from_bytes`: a big-endian reader over `bytes`, cursor at 0.
#[verifier::external_body]
pub(crate) fn reader_new<'a>(bytes: &'a [u8]) -> (r: ByteReader<'a>)
    ensures
        reader_data(r) == bytes@,
        reader_pos(r) == 0,
        reader_aligned(r),
{
    ByteReader::from_bytes(bytes)
}

/// `ByteReader::read_u8`: the byte under the cursor, which moves on by one;
/// nothing, and no move, at the end of the data.
#[verifier::external_body]
pub(crate) fn reader_read_u8(r: &mut ByteReader<'_>) -> (out: Option<u8>)
    requires
        reader_ok(*old(r)),
    ensures
        reader_aligned(*final(r)),
        reader_data(*final(r)) == reader_data(*old(r)),
        match out {
            Some(v) => reader_pos(*old(r)) < reader_data(*old(r)).len()
                && v == reader_data(*old(r))[reader_pos(*old(r)) as int]
                && reader_pos(*final(r)) == reader_pos(*old(r)) + 1,
            None => reader_pos(*old(r)) >= reader_data(*old(r)).len()
                && reader_pos(*final(r)) == reader_pos(*old(r)),
        },
{
    match r.read_u8() {
        Ok(v) => Some(v),
        Err(_) => None,
    }
}

/// `ByteReader::read_u16`: the big-endian number in the two bytes under the
/// cursor, which moves on by two; nothing, and no move, where fewer are left.
#[verifier::external_body]
pub(crate) fn reader_read_u16(r: &mut ByteReader<'_>) -> (out: Option<u16>)
    requires
        reader_ok(*old(r)),
    ensures
        reader_aligned(*final(r)),
        reader_data(*final(r)) == reader_data(*old(r)),
        match out {
            Some(v) => reader_pos(*old(r)) + 2 <= reader_data(*old(r)).len()
                && v == u16_value(reader_data(*old(r)).skip(reader_pos(*old(r)) as int))
                && reader_pos(*final(r)) == reader_pos(*old(r)) + 2,
            None => reader_pos(*old(r)) + 2 > reader_data(*old(r)).len()
                && reader_pos(*final(r)) == reader_pos(*old(r)),
        },
{
    match r.read_u16() {
        Ok(v) => Some(v),
        Err(_) => None,
    }
}

/// `ByteReader::read_u32`: the big-endian number in the four bytes under the
/// cursor, which moves on by four; nothing, and no move, where fewer are left.
#[verifier::external_body]
pub(crate) fn reader_read_u32(r: &mut ByteReader<'_>) -> (out: Option<u32>)
    requires
        reader_ok(*old(r)),
    ensures
        reader_aligned(*final(r)),
        reader_data(*final(r)) == reader_data(*old(r)),
        match out {
            Some(v) => reader_pos(*old(r)) + 4 <= reader_data(*old(r)).len()
                && v == u32_value(reader_data(*old(r)).skip(reader_pos(*old(r)) as int))
                && reader_pos(*final(r)) == reader_pos(*old(r)) + 4,
            None => reader_pos(*old(r)) + 4 > reader_data(*old(r)).len()
                && reader_pos(*final(r)) == reader_pos(*old(r)),
        },
{
    match r.read_u32() {
        Ok(v) => Some(v),
        Err(_) => None,
    }
}

/// `ByteReader::read_i32`: as `read_u32`, the four bytes taken as a two's
/// complement bit pattern.
#[verifier::external_body]
pub(crate) fn reader_read_i32(r: &mut ByteReader<'_>) -> (out: Option<i32>)
    requires
        reader_ok(*old(r)),
    ensures
        reader_aligned(*final(r)),
        reader_data(*final(r)) == reader_data(*old(r)),
        match out {
            Some(v) => reader_pos(*old(r)) + 4 <= reader_data(*old(r)).len()
                && v == i32_of_bits(
                u32_value(reader_data(*old(r)).skip(reader_pos(*old(r)) as int)),
            ) && reader_pos(*final(r)) == reader_pos(*old(r)) + 4,
            None => reader_pos(*old(r)) + 4 > reader_data(*old(r)).len()
                && reader_pos(*final(r)) == reader_pos(*old(r)),
        },
{
    match r.read_i32() {
        Ok(v) => Some(v),
        Err(_) => None,
    }
}

/// `ByteReader::read_bytes`: the `size` bytes under the cursor, which moves on
/// by `size`; nothing, and no move, where fewer are left. The sum of cursor and
/// `size` must not overflow.
#[verifier::external_body]
pub(crate) fn reader_read_bytes(r: &mut ByteReader<'_>, size: usize) -> (out: Option<Vec<u8>>)
    requires
        reader_ok(*old(r)),
        reader_pos(*old(r)) + size <= usize::MAX,
    ensures
        reader_aligned(*final(r)),
        reader_data(*final(r)) == reader_data(*old(r)),
        match out {
            Some(v) => reader_pos(*old(r)) + size <= reader_data(*old(r)).len()
                && v@ == reader_data(*old(r)).subrange(
                reader_pos(*old(r)) as int,
                reader_pos(*old(r)) + size,
            ) && reader_pos(*final(r)) == reader_pos(*old(r)) + size,
            None => reader_pos(*old(r)) + size > reader_data(*old(r)).len()
                && reader_pos(*final(r)) == reader_pos(*old(r)),
        },
{
    match r.read_bytes(size) {
        Ok(v) => Some(v),
        Err(_) => None,
    }
}

/// `ByteReader::len`: the number of bytes that the reader reads from.
#[verifier::external_body]
pub(crate) fn reader_len(r: &ByteReader<'_>) -> (n: usize)
    ensures
        n == reader_data(*r).len(),
{
    r.len()
}

/// `ByteReader::get_rpos`: the position of the cursor.
#[verifier::external_body]
pub(crate) fn reader_position(r: &ByteReader<'_>) -> (n: usize)
    ensures
        n == reader_pos(*r),
{
    r.get_rpos()
}

/// `String::from_utf8`: the text that `bytes` encode in UTF-8, or nothing
/// where they are no valid UTF-8.
#[verifier::external_body]
pub(crate) fn string_from_utf8(bytes: Vec<u8>) -> (out: Option<String>)
    ensures
        match out {
            Some(text) => vstd::utf8::valid_utf8(bytes@) && text@ == vstd::utf8::decode_utf8(
                bytes@,
            ),
            None => !vstd::utf8::valid_utf8(bytes@),
        },
{
    match String::from_utf8(bytes) {
        Ok(text) => Some(text),
        Err(_) => None,
    }
}

} // verus!
