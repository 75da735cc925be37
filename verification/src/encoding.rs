//! The table of pixel encodings: which of them carry a palette, and how large
//! that palette is.

use vstd::prelude::*;

verus! {

/// Code of the 4-bit colour-indexed encoding, the one with a 16-entry palette.
pub const CODE_CI4: u8 = 0x08;

/// Code of the 8-bit colour-indexed encoding, the one with a 256-entry palette.
pub const CODE_CI8: u8 = 0x09;

/// Byte size of the palette that accompanies a CI4 image.
pub const CI4_PALETTE_SIZE: usize = 0x20;

/// Byte size of the palette that accompanies a CI8 image.
pub const CI8_PALETTE_SIZE: usize = 0x200;

/// The pixel encodings with a known code.
#[derive(Clone, Copy, Debug, PartialEq, Eq)]
pub enum EncodingType {
    I4,
    I8,
    Ia4,
    Ia8,
    Rgb565,
    Rgb5A3,
    Rgba32,
    Ci4,
    Ci8,
    Ci14x2,
    Cmpr,
}

/// Whether the encoding with this code carries a palette. Codes that name no
/// known encoding carry none.
pub open spec fn has_palette(code: u8) -> bool {
    code == CODE_CI4 || code == CODE_CI8
}

/// Byte size of the palette that the encoding with this code carries; zero
/// for every code without a palette.
pub open spec fn palette_size(code: u8) -> nat {
    if code == CODE_CI4 {
        CI4_PALETTE_SIZE as nat
    } else if code == CODE_CI8 {
        CI8_PALETTE_SIZE as nat
    } else {
        0
    }
}

impl EncodingType {
    /// The one-byte code that stands for the encoding in a container header.
    pub open spec fn code(self) -> u8 {
        match self {
            EncodingType::I4 => 0x00,
            EncodingType::I8 => 0x01,
            EncodingType::Ia4 => 0x02,
            EncodingType::Ia8 => 0x03,
            EncodingType::Rgb565 => 0x04,
            EncodingType::Rgb5A3 => 0x05,
            EncodingType::Rgba32 => 0x06,
            EncodingType::Ci4 => 0x08,
            EncodingType::Ci8 => 0x09,
            EncodingType::Ci14x2 => 0x0A,
            EncodingType::Cmpr => 0x0E,
        }
    }

    /// Whether some known encoding has this code.
    pub open spec fn is_known(code: u8) -> bool {
        code <= 0x06 || (0x08 <= code && code <= 0x0A) || code == 0x0E
    }

    /// The encoding's code as a byte.
    pub fn to_u8(self) -> (code: u8)
        ensures
            code == self.code(),
            Self::is_known(code),
    {
        match self {
            EncodingType::I4 => 0x00,
            EncodingType::I8 => 0x01,
            EncodingType::Ia4 => 0x02,
            EncodingType::Ia8 => 0x03,
            EncodingType::Rgb565 => 0x04,
            EncodingType::Rgb5A3 => 0x05,
            EncodingType::Rgba32 => 0x06,
            EncodingType::Ci4 => 0x08,
            EncodingType::Ci8 => 0x09,
            EncodingType::Ci14x2 => 0x0A,
            EncodingType::Cmpr => 0x0E,
        }
    }

    /// Looks a code up. Every byte is accepted: one that names no known
    /// encoding gives `None`.
    pub fn from_u8(code: u8) -> (found: Option<EncodingType>)
        ensures
            found is Some <==> Self::is_known(code),
            found matches Some(enc) ==> enc.code() == code,
    {
        match code {
            0x00 => Some(EncodingType::I4),
            0x01 => Some(EncodingType::I8),
            0x02 => Some(EncodingType::Ia4),
            0x03 => Some(EncodingType::Ia8),
            0x04 => Some(EncodingType::Rgb565),
            0x05 => Some(EncodingType::Rgb5A3),
            0x06 => Some(EncodingType::Rgba32),
            0x08 => Some(EncodingType::Ci4),
            0x09 => Some(EncodingType::Ci8),
            0x0A => Some(EncodingType::Ci14x2),
            0x0E => Some(EncodingType::Cmpr),
            _ => None,
        }
    }
}

/// Whether the encoding whose code is the one byte of `enc_byte` carries a
/// palette.
pub fn encoding_has_palette(enc_byte: [u8; 1]) -> (carries: bool)
    ensures
        carries == has_palette(enc_byte[0]),
{
    match EncodingType::from_u8(enc_byte[0]) {
        Some(EncodingType::Ci4) | Some(EncodingType::Ci8) => true,
        None | Some(_) => false,
    }
}

/// Palette size, in bytes, of the encoding whose code is the one byte of
/// `enc_byte`.
pub fn encoding_palette_size_from_byte(enc_byte: [u8; 1]) -> (size: u32)
    ensures
        size == palette_size(enc_byte[0]),
{
    match EncodingType::from_u8(enc_byte[0]) {
        Some(e) => encoding_palette_size_u32(e),
        None => 0,
    }
}

/// Palette size, in bytes, of a known encoding.
pub fn encoding_palette_size_u32(enc: EncodingType) -> (size: u32)
    ensures
        size == palette_size(enc.code()),
{
    match enc {
        EncodingType::Ci4 => 0x20,
        EncodingType::Ci8 => 0x200,
        _ => 0,
    }
}

/// Palette size of a known encoding, as a buffer length.
pub fn encoding_palette_size_usize(enc: EncodingType) -> (size: usize)
    ensures
        size == palette_size(enc.code()),
{
    match enc {
        EncodingType::Ci4 => CI4_PALETTE_SIZE,
        EncodingType::Ci8 => CI8_PALETTE_SIZE,
        _ => 0,
    }
}

} // verus!
