//! The trailing record that stores a file stem behind a container's data.
//!
//! A footer is three zero bytes, one byte that counts the stem, the stem
//! itself and a run of one to four zero bytes. The run is never empty, so
//! the length of a footer follows from the length of its stem alone, and a
//! reader that knows the stem can strip the footer without parsing it.

use vstd::prelude::*;
use crate::bytes::{write_bytes, write_zeros, zeros};
use crate::error::ConversionError;

verus! {

/// Number of zero bytes that open a footer.
pub const FOOTER_LEAD_IN: usize = 3;

/// Longest stem, in bytes, that the single length byte can count.
pub const MAX_STEM_LEN: usize = 255;

/// Whether every byte is an ASCII byte.
pub open spec fn is_ascii_bytes(bytes: Seq<u8>) -> bool {
    forall|i: int| 0 <= i < bytes.len() ==> bytes[i] < 0x80
}

/// Number of zero bytes that close the footer of a stem of `stem_len` bytes:
/// the remainder, modulo four, of what the footer holds up to the end of the
/// stem, and four where that remainder is zero.
pub open spec fn pad_length(stem_len: nat) -> nat {
    let filled = FOOTER_LEAD_IN + 1 + stem_len;
    if filled % 4 == 0 {
        4
    } else {
        (filled % 4) as nat
    }
}

/// Length of the footer of a stem of `stem_len` bytes.
pub open spec fn spec_footer_length(stem_len: nat) -> nat {
    FOOTER_LEAD_IN as nat + 1 + stem_len + pad_length(stem_len)
}

/// The footer of `stem`, for a stem that the length byte can count.
pub open spec fn footer_bytes(stem: Seq<u8>) -> Seq<u8>
    recommends
        stem.len() <= MAX_STEM_LEN,
{
    zeros(FOOTER_LEAD_IN as nat) + seq![stem.len() as u8] + stem + zeros(pad_length(stem.len()))
}

/// What encoding the footer of `stem` gives: a stem with a byte outside
/// ASCII is refused, then one of more than 255 bytes; every other stem has
/// the footer [`footer_bytes`].
pub open spec fn spec_encode_footer(stem: Seq<u8>) -> Result<Seq<u8>, ConversionError> {
    if !is_ascii_bytes(stem) {
        Err(ConversionError::NonAsciiStem)
    } else if stem.len() > MAX_STEM_LEN {
        Err(ConversionError::StemTooLong)
    } else {
        Ok(footer_bytes(stem))
    }
}

/// The encoded footer of a stem is exactly as long as [`spec_footer_length`]
/// says for the stem's length, for every ASCII stem of at most 255 bytes.
pub proof fn lemma_encoded_length_is_footer_length(stem: Seq<u8>)
    requires
        is_ascii_bytes(stem),
        stem.len() <= MAX_STEM_LEN,
    ensures
        spec_encode_footer(stem) is Ok,
        spec_encode_footer(stem).unwrap().len() == spec_footer_length(stem.len()),
{
}

/// A footer is longer than its stem by five to eight bytes.
pub proof fn lemma_footer_length_bounds(stem_len: nat)
    ensures
        stem_len + 5 <= spec_footer_length(stem_len) <= stem_len + 8,
{
}

/// Whether every byte of `bytes` is an ASCII byte.
pub fn is_ascii_stem(bytes: &[u8]) -> (ascii: bool)
    ensures
        ascii == is_ascii_bytes(bytes@),
{
    let mut seen: usize = 0;
    while seen < bytes.len()
        invariant
            seen <= bytes@.len(),
            forall|i: int| 0 <= i < seen ==> bytes@[i] < 0x80,
        decreases bytes@.len() - seen,
    {
        if bytes[seen] >= 0x80 {
            return false;
        }
        seen = seen + 1;
    }
    true
}

/// Length of the footer that [`encode_footer`] builds for a stem of
/// `stem_len` bytes.
///
/// Both directions of the conversion go through this one function: the
/// forward one by way of [`encode_footer`], the reverse one to know how many
/// trailing bytes to strip.
pub fn footer_length(stem_len: usize) -> (len: usize)
    requires
        stem_len + 8 <= usize::MAX,
    ensures
        len == spec_footer_length(stem_len as nat),
{
    let filled: usize = FOOTER_LEAD_IN + 1 + stem_len;
    let end_pad_len: usize = if filled % 4 == 0 {
        4
    } else {
        filled % 4
    };
    filled + end_pad_len
}

/// Builds the footer that stores `stem`.
///
/// Fails with [`ConversionError::NonAsciiStem`] when a byte of the stem lies
/// outside ASCII, and otherwise with [`ConversionError::StemTooLong`] when
/// the stem has more than 255 bytes.
pub fn encode_footer(stem: &[u8]) -> (footer: Result<Vec<u8>, ConversionError>)
    ensures
        match footer {
            Ok(bytes) => spec_encode_footer(stem@) == Ok::<Seq<u8>, ConversionError>(bytes@),
            Err(e) => spec_encode_footer(stem@) == Err::<Seq<u8>, ConversionError>(e),
        },
        footer matches Ok(bytes) ==> bytes@.len() == spec_footer_length(stem@.len()),
{
    if !is_ascii_stem(stem) {
        return Err(ConversionError::NonAsciiStem);
    }
    if stem.len() > MAX_STEM_LEN {
        return Err(ConversionError::StemTooLong);
    }
    let stem_len: usize = stem.len();
    let mut footer: Vec<u8> = Vec::new();
    write_zeros(&mut footer, FOOTER_LEAD_IN);
    footer.push(stem_len as u8);
    write_bytes(&mut footer, stem);
    let pad: usize = footer_length(stem_len) - footer.len();
    write_zeros(&mut footer, pad);
    assert(footer@ =~= footer_bytes(stem@));
    Ok(footer)
}

} // verus!
