//! The byte layout of the three container headers.
//!
//! Each header is 0x40 bytes long. The functions here say where a field
//! lies, read the fields that a conversion needs, and build a header from
//! them; the lemmas say that a header built here gives back, at its offsets,
//! the fields it was built from.

use vstd::prelude::*;
use crate::bytes::{
    be16, be16_at, be32, be32_at, lemma_be16_round_trip, lemma_be32_round_trip, read_byte,
    read_short, write_bytes, write_int, write_short, write_zeros, zeros,
};
use crate::encoding::{encoding_has_palette, has_palette, EncodingType, CODE_CI4};
use crate::error::ConversionError;

verus! {

/// Length of the header of a GCT, a TEX0 and a PLT0 container alike; the
/// payload starts at this offset.
pub const HEADER_LEN: usize = 0x40;

/// Shortest GCT buffer that is accepted.
pub const GCT_MIN_LEN: usize = 0x42;

/// Largest byte count that a 32-bit length field can hold.
pub const MAX_FIELD_LEN: usize = 0xFFFF_FFFF;

/// Offset of the 32-bit data length in a GCT header.
pub const GCT_DATA_LEN_OFFSET: usize = 0x0C;

/// Offset of the 16-bit width in a GCT header.
pub const GCT_WIDTH_OFFSET: usize = 0x10;

/// Offset of the 16-bit height in a GCT header.
pub const GCT_HEIGHT_OFFSET: usize = 0x12;

/// Offset of the encoding byte in a GCT header.
pub const GCT_ENCODING_OFFSET: usize = 0x14;

/// Offset of the palette flag byte in a GCT header.
pub const GCT_PALETTE_FLAG_OFFSET: usize = 0x15;

/// Offset of the 32-bit image length in a TEX0 header.
pub const TEX0_LENGTH_OFFSET: usize = 0x04;

/// Offset of the 32-bit field of a TEX0 header that holds the image length
/// and four more.
pub const TEX0_LENGTH_PLUS_4_OFFSET: usize = 0x14;

/// Offset of the 32-bit palette flag in a TEX0 header.
pub const TEX0_PALETTE_FLAG_OFFSET: usize = 0x18;

/// Offset of the 16-bit width in a TEX0 header.
pub const TEX0_WIDTH_OFFSET: usize = 0x1C;

/// Offset of the 16-bit height in a TEX0 header.
pub const TEX0_HEIGHT_OFFSET: usize = 0x1E;

/// Offset of the encoding byte in a TEX0 header.
pub const TEX0_ENCODING_OFFSET: usize = 0x23;

/// The magic and version bytes that open every GCT header.
pub const GCT_MAGIC: [u8; 12] = [
    0x47, 0x43, 0x4E, 0x54, 0x00, 0x00, 0x00, 0x03, 0x00, 0x40, 0x00, 0x00,
];

/// The tool signature that fills the second half of every GCT header.
pub const GCT_TOOL_SIGNATURE: [u8; 32] = [
    0x20, 0x74, 0x72, 0x65, 0x79, 0x61, 0x72, 0x63, 0x68, 0x67, 0x63, 0x74, 0x2E, 0x38, 0x62,
    0x69, 0x20, 0x76, 0x32, 0x2E, 0x32, 0x2E, 0x34, 0x23, 0x30, 0x00, 0x00, 0x00, 0x00, 0x00,
    0x00, 0x00,
];

/// The four ASCII bytes `TEX0`.
pub const TEX0_MAGIC: [u8; 4] = [0x54, 0x45, 0x58, 0x30];

/// The whole header of the PLT0 container that holds a CI4 palette.
pub const PLT0_HEADER_CI4: [u8; 64] = [
    0x50, 0x4C, 0x54, 0x30, 0x00, 0x00, 0x00, 0x60, 0x00, 0x00, 0x00, 0x01, 0x00, 0x00,
    0x00, 0x00, 0x00, 0x00, 0x00, 0x40, 0x00, 0x00, 0x00, 0x64, 0x00, 0x00, 0x00, 0x02,
    0x00, 0x10, 0x00, 0x00, 0x00, 0x00, 0x00, 0x00, 0x00, 0x00, 0x00, 0x00, 0x00, 0x00,
    0x00, 0x00, 0x00, 0x00, 0x00, 0x00, 0x00, 0x00, 0x00, 0x00, 0x00, 0x00, 0x00, 0x00,
    0x00, 0x00, 0x00, 0x00, 0x00, 0x00, 0x00, 0x00,
];

/// The whole header of the PLT0 container that holds a CI8 palette.
pub const PLT0_HEADER_CI8: [u8; 64] = [
    0x50, 0x4C, 0x54, 0x30, 0x00, 0x00, 0x02, 0x40, 0x00, 0x00, 0x00, 0x01, 0x00, 0x00,
    0x00, 0x00, 0x00, 0x00, 0x00, 0x40, 0x00, 0x00, 0x02, 0x44, 0x00, 0x00, 0x00, 0x02,
    0x01, 0x00, 0x00, 0x00, 0x00, 0x00, 0x00, 0x00, 0x00, 0x00, 0x00, 0x00, 0x00, 0x00,
    0x00, 0x00, 0x00, 0x00, 0x00, 0x00, 0x00, 0x00, 0x00, 0x00, 0x00, 0x00, 0x00, 0x00,
    0x00, 0x00, 0x00, 0x00, 0x00, 0x00, 0x00, 0x00,
];

/// The header fields that both directions of the conversion carry over.
#[derive(Clone, Copy, Debug, PartialEq, Eq)]
pub struct ImageFields {
    /// Width of the image.
    pub width: u16,
    /// Height of the image.
    pub height: u16,
    /// Code of the pixel encoding.
    pub encoding: u8,
}

/// The fields that a GCT buffer of at least 0x15 bytes holds.
pub open spec fn gct_fields(gct: Seq<u8>) -> ImageFields {
    ImageFields {
        width: be16_at(gct, GCT_WIDTH_OFFSET as int),
        height: be16_at(gct, GCT_HEIGHT_OFFSET as int),
        encoding: gct[GCT_ENCODING_OFFSET as int],
    }
}

/// The fields that a TEX0 buffer of at least 0x24 bytes holds.
pub open spec fn tex0_fields(tex0: Seq<u8>) -> ImageFields {
    ImageFields {
        width: be16_at(tex0, TEX0_WIDTH_OFFSET as int),
        height: be16_at(tex0, TEX0_HEIGHT_OFFSET as int),
        encoding: tex0[TEX0_ENCODING_OFFSET as int],
    }
}

/// The TEX0 header of an image of `image_len` bytes: the magic, the image
/// length, the version 1, a zero field, the header size, the image length
/// and four more, the palette flag, width and height, three pad bytes, the
/// encoding, the mip-map count and one (always 1), and 24 reserved bytes.
pub open spec fn tex0_header(image_len: u32, fields: ImageFields) -> Seq<u8>
    recommends
        image_len + 4 <= u32::MAX,
{
    TEX0_MAGIC@ + be32(image_len) + be32(1) + be32(0) + be32(HEADER_LEN as u32) + be32(
        (image_len + 4) as u32,
    ) + be32(
        if has_palette(fields.encoding) {
            1
        } else {
            0
        },
    ) + be16(fields.width) + be16(fields.height) + zeros(3) + seq![fields.encoding] + be32(1)
        + zeros(24)
}

/// The GCT header of an image of `data_len` bytes: the magic and version,
/// the data length, width and height, the encoding, the palette flag (2 with
/// a palette, 1 without), ten reserved bytes and the tool signature.
pub open spec fn gct_header(data_len: u32, fields: ImageFields) -> Seq<u8> {
    GCT_MAGIC@ + be32(data_len) + be16(fields.width) + be16(fields.height) + seq![
        fields.encoding,
    ] + seq![
        if has_palette(fields.encoding) {
            2u8
        } else {
            1u8
        },
    ] + zeros(10) + GCT_TOOL_SIGNATURE@
}

/// The PLT0 header that goes with a palette-bearing encoding.
pub open spec fn plt0_header(encoding: u8) -> Seq<u8>
    recommends
        has_palette(encoding),
{
    if encoding == CODE_CI4 {
        PLT0_HEADER_CI4@
    } else {
        PLT0_HEADER_CI8@
    }
}

/// A TEX0 header is 0x40 bytes long and holds, at their offsets, the fields
/// it was built from.
pub proof fn lemma_tex0_header_fields(image_len: u32, fields: ImageFields)
    requires
        image_len + 4 <= u32::MAX,
    ensures
        tex0_header(image_len, fields).len() == HEADER_LEN,
        tex0_fields(tex0_header(image_len, fields)) == fields,
        be32_at(tex0_header(image_len, fields), TEX0_LENGTH_OFFSET as int) == image_len,
        be32_at(tex0_header(image_len, fields), TEX0_LENGTH_PLUS_4_OFFSET as int) == image_len
            + 4,
        be32_at(tex0_header(image_len, fields), TEX0_PALETTE_FLAG_OFFSET as int) == (if has_palette(
            fields.encoding,
        ) {
            1u32
        } else {
            0u32
        }),
{
    let header = tex0_header(image_len, fields);
    let flag: u32 = if has_palette(fields.encoding) {
        1
    } else {
        0
    };
    assert(header.len() == HEADER_LEN);
    assert(header.subrange(4, 8) =~= be32(image_len));
    assert(header.subrange(0x14, 0x18) =~= be32((image_len + 4) as u32));
    assert(header.subrange(0x18, 0x1C) =~= be32(flag));
    assert(header.subrange(0x1C, 0x1E) =~= be16(fields.width));
    assert(header.subrange(0x1E, 0x20) =~= be16(fields.height));
    lemma_be32_round_trip(image_len, header, 4);
    lemma_be32_round_trip((image_len + 4) as u32, header, 0x14);
    lemma_be32_round_trip(flag, header, 0x18);
    lemma_be16_round_trip(fields.width, header, 0x1C);
    lemma_be16_round_trip(fields.height, header, 0x1E);
    lemma_field_matches(header, 4, be32(image_len));
    lemma_field_matches(header, 0x14, be32((image_len + 4) as u32));
    lemma_field_matches(header, 0x18, be32(flag));
    lemma_field_matches(header, 0x1C, be16(fields.width));
    lemma_field_matches(header, 0x1E, be16(fields.height));
}

/// A GCT header is 0x40 bytes long and holds, at their offsets, the fields
/// it was built from.
pub proof fn lemma_gct_header_fields(data_len: u32, fields: ImageFields)
    ensures
        gct_header(data_len, fields).len() == HEADER_LEN,
        gct_fields(gct_header(data_len, fields)) == fields,
        be32_at(gct_header(data_len, fields), GCT_DATA_LEN_OFFSET as int) == data_len,
        gct_header(data_len, fields)[GCT_PALETTE_FLAG_OFFSET as int] == (if has_palette(
            fields.encoding,
        ) {
            2u8
        } else {
            1u8
        }),
{
    let header = gct_header(data_len, fields);
    assert(header.len() == HEADER_LEN);
    assert(header.subrange(0x0C, 0x10) =~= be32(data_len));
    assert(header.subrange(0x10, 0x12) =~= be16(fields.width));
    assert(header.subrange(0x12, 0x14) =~= be16(fields.height));
    lemma_be32_round_trip(data_len, header, 0x0C);
    lemma_be16_round_trip(fields.width, header, 0x10);
    lemma_be16_round_trip(fields.height, header, 0x12);
    lemma_field_matches(header, 0x0C, be32(data_len));
    lemma_field_matches(header, 0x10, be16(fields.width));
    lemma_field_matches(header, 0x12, be16(fields.height));
}

/// Where the bytes of `buf` from `offset` on are those of `field`, reading
/// at `offset` in `buf` is reading at the start of `field`.
proof fn lemma_field_matches(buf: Seq<u8>, offset: int, field: Seq<u8>)
    requires
        0 <= offset,
        offset + field.len() <= buf.len(),
        buf.subrange(offset, offset + field.len()) == field,
    ensures
        field.len() == 2 ==> be16_at(buf, offset) == be16_at(field, 0),
        field.len() == 4 ==> be32_at(buf, offset) == be32_at(field, 0),
{
    if field.len() == 2 {
        assert(field[0] == buf[offset] && field[1] == buf[offset + 1]);
    }
    if field.len() == 4 {
        assert(field[0] == buf[offset] && field[1] == buf[offset + 1]);
        assert(field[2] == buf[offset + 2] && field[3] == buf[offset + 3]);
    }
}

/// Reads width, height and encoding from the header of a GCT buffer.
///
/// Fails with [`ConversionError::UnexpectedEof`] exactly when the buffer ends
/// before the encoding byte.
pub fn read_gct_fields(gct: &[u8]) -> (fields: Result<ImageFields, ConversionError>)
    ensures
        gct@.len() > GCT_ENCODING_OFFSET ==> fields == Ok::<ImageFields, ConversionError>(
            gct_fields(gct@),
        ),
        gct@.len() <= GCT_ENCODING_OFFSET ==> fields == Err::<ImageFields, ConversionError>(
            ConversionError::UnexpectedEof,
        ),
{
    let width = match read_short(gct, GCT_WIDTH_OFFSET) {
        Ok(width) => width,
        Err(e) => return Err(e),
    };
    let height = match read_short(gct, GCT_HEIGHT_OFFSET) {
        Ok(height) => height,
        Err(e) => return Err(e),
    };
    let encoding = match read_byte(gct, GCT_ENCODING_OFFSET) {
        Ok(encoding) => encoding,
        Err(e) => return Err(e),
    };
    Ok(ImageFields { width, height, encoding })
}

/// Reads width, height and encoding from the header of a TEX0 buffer.
///
/// Fails with [`ConversionError::UnexpectedEof`] exactly when the buffer ends
/// before the encoding byte.
pub fn read_tex0_fields(tex0: &[u8]) -> (fields: Result<ImageFields, ConversionError>)
    ensures
        tex0@.len() > TEX0_ENCODING_OFFSET ==> fields == Ok::<ImageFields, ConversionError>(
            tex0_fields(tex0@),
        ),
        tex0@.len() <= TEX0_ENCODING_OFFSET ==> fields == Err::<ImageFields, ConversionError>(
            ConversionError::UnexpectedEof,
        ),
{
    let width = match read_short(tex0, TEX0_WIDTH_OFFSET) {
        Ok(width) => width,
        Err(e) => return Err(e),
    };
    let height = match read_short(tex0, TEX0_HEIGHT_OFFSET) {
        Ok(height) => height,
        Err(e) => return Err(e),
    };
    let encoding = match read_byte(tex0, TEX0_ENCODING_OFFSET) {
        Ok(encoding) => encoding,
        Err(e) => return Err(e),
    };
    Ok(ImageFields { width, height, encoding })
}

/// Builds the TEX0 header of an image of `image_len` bytes.
pub fn build_tex0_header(image_len: u32, fields: ImageFields) -> (header: Vec<u8>)
    requires
        image_len + 4 <= u32::MAX,
    ensures
        header@ == tex0_header(image_len, fields),
        header@.len() == HEADER_LEN,
{
    let mut header: Vec<u8> = Vec::new();
    write_bytes(&mut header, &TEX0_MAGIC);
    write_int(&mut header, image_len);
    write_int(&mut header, 1);
    write_int(&mut header, 0);
    write_int(&mut header, 0x40);
    write_int(&mut header, image_len + 4);
    if encoding_has_palette([fields.encoding]) {
        write_int(&mut header, 1);
    } else {
        write_int(&mut header, 0);
    }
    write_short(&mut header, fields.width);
    write_short(&mut header, fields.height);
    write_zeros(&mut header, 3);
    header.push(fields.encoding);
    write_int(&mut header, 1);
    write_zeros(&mut header, 24);
    assert(header@ =~= tex0_header(image_len, fields));
    header
}

/// Builds the GCT header of an image of `data_len` bytes.
pub fn build_gct_header(data_len: u32, fields: ImageFields) -> (header: Vec<u8>)
    ensures
        header@ == gct_header(data_len, fields),
        header@.len() == HEADER_LEN,
{
    let mut header: Vec<u8> = Vec::new();
    write_bytes(&mut header, &GCT_MAGIC);
    write_int(&mut header, data_len);
    write_short(&mut header, fields.width);
    write_short(&mut header, fields.height);
    header.push(fields.encoding);
    if encoding_has_palette([fields.encoding]) {
        header.push(0x02);
    } else {
        header.push(0x01);
    }
    write_zeros(&mut header, 10);
    write_bytes(&mut header, &GCT_TOOL_SIGNATURE);
    assert(header@ =~= gct_header(data_len, fields));
    header
}

/// Builds the PLT0 header that goes with `encoding`; only CI4 and CI8 have
/// one.
pub fn build_plt0_header(encoding: u8) -> (header: Option<Vec<u8>>)
    ensures
        header is Some <==> has_palette(encoding),
        header matches Some(bytes) ==> bytes@ == plt0_header(encoding) && bytes@.len()
            == HEADER_LEN,
{
    match EncodingType::from_u8(encoding) {
        Some(EncodingType::Ci4) => {
            let mut header: Vec<u8> = Vec::new();
            write_bytes(&mut header, &PLT0_HEADER_CI4);
            Some(header)
        },
        Some(EncodingType::Ci8) => {
            let mut header: Vec<u8> = Vec::new();
            write_bytes(&mut header, &PLT0_HEADER_CI8);
            Some(header)
        },
        None | Some(_) => None,
    }
}

} // verus!
