//! Big-endian fields and the small steps that build a byte buffer.
//!
//! Every multi-byte integer of the three containers is stored most
//! significant byte first.

use vstd::prelude::*;
use crate::error::ConversionError;

verus! {

/// The two bytes that store `value`, most significant first.
pub open spec fn be16(value: u16) -> Seq<u8> {
    seq![(value / 0x100) as u8, (value % 0x100) as u8]
}

/// The four bytes that store `value`, most significant first.
pub open spec fn be32(value: u32) -> Seq<u8> {
    seq![
        (value / 0x100_0000) as u8,
        (value / 0x1_0000 % 0x100) as u8,
        (value / 0x100 % 0x100) as u8,
        (value % 0x100) as u8,
    ]
}

/// The 16-bit integer stored in the two bytes of `buf` that start at `offset`.
pub open spec fn be16_at(buf: Seq<u8>, offset: int) -> u16
    recommends
        0 <= offset,
        offset + 2 <= buf.len(),
{
    (buf[offset] * 0x100 + buf[offset + 1]) as u16
}

/// The 32-bit integer stored in the four bytes of `buf` that start at `offset`.
pub open spec fn be32_at(buf: Seq<u8>, offset: int) -> u32
    recommends
        0 <= offset,
        offset + 4 <= buf.len(),
{
    (buf[offset] * 0x100_0000 + buf[offset + 1] * 0x1_0000 + buf[offset + 2] * 0x100
        + buf[offset + 3]) as u32
}

/// `count` zero bytes.
pub open spec fn zeros(count: nat) -> Seq<u8> {
    Seq::new(count, |i: int| 0u8)
}

/// Storing a 16-bit integer and reading it back gives the integer, and
/// reading two bytes and storing what was read gives the two bytes.
pub proof fn lemma_be16_round_trip(value: u16, buf: Seq<u8>, offset: int)
    requires
        0 <= offset,
        offset + 2 <= buf.len(),
    ensures
        be16(value).len() == 2,
        be16_at(be16(value), 0) == value,
        be16(be16_at(buf, offset)) == buf.subrange(offset, offset + 2),
{
    assert(be16(be16_at(buf, offset)) =~= buf.subrange(offset, offset + 2));
}

/// Storing a 32-bit integer and reading it back gives the integer, and
/// reading four bytes and storing what was read gives the four bytes.
pub proof fn lemma_be32_round_trip(value: u32, buf: Seq<u8>, offset: int)
    requires
        0 <= offset,
        offset + 4 <= buf.len(),
    ensures
        be32(value).len() == 4,
        be32_at(be32(value), 0) == value,
        be32(be32_at(buf, offset)) == buf.subrange(offset, offset + 4),
{
    let v = value as int;
    assert(v / 0x1_0000 % 0x100 == v / 0x1_0000 - (v / 0x100_0000) * 0x100);
    assert(v / 0x100 % 0x100 == v / 0x100 - (v / 0x1_0000) * 0x100);
    assert(be32_at(be32(value), 0) == value);

    let b0 = buf[offset] as int;
    let b1 = buf[offset + 1] as int;
    let b2 = buf[offset + 2] as int;
    let b3 = buf[offset + 3] as int;
    let read = b0 * 0x100_0000 + b1 * 0x1_0000 + b2 * 0x100 + b3;
    assert(read / 0x100_0000 == b0);
    assert(read / 0x1_0000 == b0 * 0x100 + b1);
    assert(read / 0x100 == b0 * 0x1_0000 + b1 * 0x100 + b2);
    assert(read == be32_at(buf, offset));
    assert(be32(be32_at(buf, offset)) =~= buf.subrange(offset, offset + 4));
}

/// Reads the big-endian 16-bit field of `buf` that starts at `offset`.
///
/// Fails with [`ConversionError::UnexpectedEof`] exactly when the buffer ends
/// before the field does.
pub fn read_short(buf: &[u8], offset: usize) -> (field: Result<u16, ConversionError>)
    ensures
        offset + 2 <= buf@.len() ==> field == Ok::<u16, ConversionError>(
            be16_at(buf@, offset as int),
        ),
        offset + 2 > buf@.len() ==> field == Err::<u16, ConversionError>(
            ConversionError::UnexpectedEof,
        ),
{
    if buf.len() < 2 || offset > buf.len() - 2 {
        return Err(ConversionError::UnexpectedEof);
    }
    let high: u16 = buf[offset] as u16;
    let low: u16 = buf[offset + 1] as u16;
    Ok(high * 0x100 + low)
}

/// Reads the one-byte field of `buf` at `offset`.
///
/// Fails with [`ConversionError::UnexpectedEof`] exactly when the buffer ends
/// at or before `offset`.
pub fn read_byte(buf: &[u8], offset: usize) -> (field: Result<u8, ConversionError>)
    ensures
        offset < buf@.len() ==> field == Ok::<u8, ConversionError>(buf@[offset as int]),
        offset >= buf@.len() ==> field == Err::<u8, ConversionError>(
            ConversionError::UnexpectedEof,
        ),
{
    if offset >= buf.len() {
        return Err(ConversionError::UnexpectedEof);
    }
    Ok(buf[offset])
}

/// Appends `value` as a big-endian 16-bit field.
pub fn write_short(out: &mut Vec<u8>, value: u16)
    ensures
        final(out)@ == old(out)@ + be16(value),
{
    out.push((value / 0x100) as u8);
    out.push((value % 0x100) as u8);
    assert(out@ =~= old(out)@ + be16(value));
}

/// Appends `value` as a big-endian 32-bit field.
pub fn write_int(out: &mut Vec<u8>, value: u32)
    ensures
        final(out)@ == old(out)@ + be32(value),
{
    out.push((value / 0x100_0000) as u8);
    out.push((value / 0x1_0000 % 0x100) as u8);
    out.push((value / 0x100 % 0x100) as u8);
    out.push((value % 0x100) as u8);
    assert(out@ =~= old(out)@ + be32(value));
}

/// Appends `count` zero bytes.
pub fn write_zeros(out: &mut Vec<u8>, count: usize)
    ensures
        final(out)@ == old(out)@ + zeros(count as nat),
{
    let mut written: usize = 0;
    while written < count
        invariant
            written <= count,
            out@ == old(out)@ + zeros(written as nat),
        decreases count - written,
    {
        out.push(0);
        written = written + 1;
        assert(out@ =~= old(out)@ + zeros(written as nat));
    }
}

/// Appends a copy of `bytes`.
pub fn write_bytes(out: &mut Vec<u8>, bytes: &[u8])
    ensures
        final(out)@ == old(out)@ + bytes@,
{
    out.extend_from_slice(bytes);
    assert(out@ =~= old(out)@ + bytes@);
}

} // verus!
