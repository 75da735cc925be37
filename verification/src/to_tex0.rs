//! From a GCT container to a TEX0 container and, where the encoding carries
//! a palette, a PLT0 container.

use vstd::prelude::*;
use crate::bytes::{be16, be32_at, lemma_be16_round_trip, write_bytes};
use crate::encoding::{
    encoding_palette_size_from_byte, encoding_palette_size_usize, has_palette, palette_size,
    EncodingType, CODE_CI4, CODE_CI8,
};
use crate::error::ConversionError;
use crate::footer::{encode_footer, spec_encode_footer, spec_footer_length};
use crate::layout::{
    build_plt0_header, build_tex0_header, gct_fields, lemma_tex0_header_fields, plt0_header,
    read_gct_fields, tex0_header, GCT_ENCODING_OFFSET, GCT_HEIGHT_OFFSET, GCT_MIN_LEN,
    GCT_WIDTH_OFFSET, HEADER_LEN, MAX_FIELD_LEN, TEX0_ENCODING_OFFSET, TEX0_LENGTH_OFFSET,
    TEX0_LENGTH_PLUS_4_OFFSET, TEX0_WIDTH_OFFSET,
};

verus! {

/// What converting one GCT container gives.
#[derive(Debug, PartialEq, Eq)]
pub struct Tex0Artifacts {
    /// The TEX0 container: header, image bytes, footer.
    pub tex0: Vec<u8>,
    /// The PLT0 container: header, palette bytes, footer. Present exactly
    /// when the encoding carries a palette.
    pub plt0: Option<Vec<u8>>,
}

/// The contents of a [`Tex0Artifacts`] as byte sequences.
pub struct Tex0ArtifactsView {
    /// The bytes of the TEX0 container.
    pub tex0: Seq<u8>,
    /// The bytes of the PLT0 container, where there is one.
    pub plt0: Option<Seq<u8>>,
}

impl View for Tex0Artifacts {
    type V = Tex0ArtifactsView;

    open spec fn view(&self) -> Tex0ArtifactsView {
        Tex0ArtifactsView {
            tex0: self.tex0@,
            plt0: match self.plt0 {
                Some(bytes) => Some(bytes@),
                None => None,
            },
        }
    }
}

/// The payload of a container: everything behind its header.
pub open spec fn payload_of(container: Seq<u8>) -> Seq<u8>
    recommends
        container.len() >= HEADER_LEN,
{
    container.skip(HEADER_LEN as int)
}

/// Number of image bytes in the payload of a GCT container: all of the
/// payload but the palette that the encoding declares.
pub open spec fn gct_image_len(gct: Seq<u8>) -> int
    recommends
        gct.len() >= GCT_MIN_LEN,
{
    payload_of(gct).len() - palette_size(gct[GCT_ENCODING_OFFSET as int])
}

/// What converting `gct` under the stem `stem` gives.
///
/// A buffer too long for a 32-bit length is refused, then one of fewer than
/// 0x42 bytes as ending too early, then a payload smaller than the palette
/// of its encoding, then a stem that [`spec_encode_footer`] refuses.
/// Otherwise the payload is split at the start of the palette: the image
/// bytes go behind a TEX0 header, the palette bytes, if the encoding has
/// any, behind the PLT0 header of the encoding, and the footer of the stem
/// closes both.
pub open spec fn spec_gct_to_tex0(gct: Seq<u8>, stem: Seq<u8>) -> Result<
    Tex0ArtifactsView,
    ConversionError,
> {
    if gct.len() > u32::MAX {
        Err(ConversionError::DataTooLarge)
    } else if gct.len() < GCT_MIN_LEN {
        Err(ConversionError::UnexpectedEof)
    } else if gct_image_len(gct) < 0 {
        Err(ConversionError::TruncatedPalette)
    } else {
        match spec_encode_footer(stem) {
            Err(e) => Err(e),
            Ok(footer) => {
                let fields = gct_fields(gct);
                let image_len = gct_image_len(gct);
                let image = payload_of(gct).take(image_len);
                let palette = payload_of(gct).skip(image_len);
                Ok(
                    Tex0ArtifactsView {
                        tex0: tex0_header(image_len as u32, fields) + image + footer,
                        plt0: if has_palette(fields.encoding) {
                            Some(plt0_header(fields.encoding) + palette + footer)
                        } else {
                            None
                        },
                    },
                )
            },
        }
    }
}

/// In every TEX0 container that a conversion gives, the length field counts
/// the image bytes alone, which are the bytes between the header and the
/// footer of the stem, and the field behind it holds that count and four
/// more.
pub proof fn lemma_tex0_length_fields(gct: Seq<u8>, stem: Seq<u8>)
    requires
        spec_gct_to_tex0(gct, stem) is Ok,
    ensures
        ({
            let tex0 = spec_gct_to_tex0(gct, stem).unwrap().tex0;
            &&& be32_at(tex0, TEX0_LENGTH_OFFSET as int) == gct_image_len(gct)
            &&& tex0.len() == HEADER_LEN + gct_image_len(gct) + spec_footer_length(stem.len())
            &&& tex0.skip(HEADER_LEN + gct_image_len(gct)) == spec_encode_footer(stem).unwrap()
            &&& be32_at(tex0, TEX0_LENGTH_PLUS_4_OFFSET as int) == be32_at(
                tex0,
                TEX0_LENGTH_OFFSET as int,
            ) + 4
        }),
{
    let tex0 = spec_gct_to_tex0(gct, stem).unwrap().tex0;
    let header = tex0_header(gct_image_len(gct) as u32, gct_fields(gct));
    lemma_tex0_header_fields(gct_image_len(gct) as u32, gct_fields(gct));
    assert(tex0.subrange(0, HEADER_LEN as int) =~= header);
    assert(tex0.skip(HEADER_LEN + gct_image_len(gct)) =~= spec_encode_footer(stem).unwrap());
}

/// Width, height and encoding pass from the GCT header to the TEX0 header
/// byte for byte, and the image bytes behind the header are the payload
/// without its palette.
pub proof fn lemma_tex0_carries_gct_fields(gct: Seq<u8>, stem: Seq<u8>)
    requires
        spec_gct_to_tex0(gct, stem) is Ok,
    ensures
        ({
            let tex0 = spec_gct_to_tex0(gct, stem).unwrap().tex0;
            &&& tex0.subrange(TEX0_WIDTH_OFFSET as int, TEX0_WIDTH_OFFSET + 4) == gct.subrange(
                GCT_WIDTH_OFFSET as int,
                GCT_WIDTH_OFFSET + 4,
            )
            &&& tex0[TEX0_ENCODING_OFFSET as int] == gct[GCT_ENCODING_OFFSET as int]
            &&& tex0.subrange(HEADER_LEN as int, HEADER_LEN + gct_image_len(gct)) == gct.subrange(
                HEADER_LEN as int,
                HEADER_LEN + gct_image_len(gct),
            )
        }),
{
    let tex0 = spec_gct_to_tex0(gct, stem).unwrap().tex0;
    let fields = gct_fields(gct);
    let header = tex0_header(gct_image_len(gct) as u32, fields);
    lemma_tex0_header_fields(gct_image_len(gct) as u32, fields);
    lemma_be16_round_trip(fields.width, gct, GCT_WIDTH_OFFSET as int);
    lemma_be16_round_trip(fields.height, gct, GCT_HEIGHT_OFFSET as int);
    assert(tex0.subrange(0, HEADER_LEN as int) =~= header);
    assert(header.subrange(TEX0_WIDTH_OFFSET as int, TEX0_WIDTH_OFFSET + 4) =~= be16(fields.width)
        + be16(fields.height));
    assert(tex0.subrange(TEX0_WIDTH_OFFSET as int, TEX0_WIDTH_OFFSET + 4) =~= gct.subrange(
        GCT_WIDTH_OFFSET as int,
        GCT_WIDTH_OFFSET + 4,
    ));
    assert(tex0[TEX0_ENCODING_OFFSET as int] == header[TEX0_ENCODING_OFFSET as int]);
    assert(tex0.subrange(HEADER_LEN as int, HEADER_LEN + gct_image_len(gct)) =~= gct.subrange(
        HEADER_LEN as int,
        HEADER_LEN + gct_image_len(gct),
    ));
}

/// The palette of a conversion is the tail of the payload: for CI4 the last
/// 0x20 bytes of the GCT container stand between the header and the footer
/// of the PLT0 container, for CI8 the last 0x200 bytes, and for every other
/// encoding there is no PLT0 container.
pub proof fn lemma_palette_extraction(gct: Seq<u8>, stem: Seq<u8>)
    requires
        spec_gct_to_tex0(gct, stem) is Ok,
    ensures
        ({
            let plt0 = spec_gct_to_tex0(gct, stem).unwrap().plt0;
            let encoding = gct[GCT_ENCODING_OFFSET as int];
            let size = palette_size(encoding) as int;
            let footer_len = spec_footer_length(stem.len()) as int;
            &&& plt0 is Some <==> has_palette(encoding)
            &&& encoding == CODE_CI4 ==> size == 0x20
            &&& encoding == CODE_CI8 ==> size == 0x200
            &&& plt0 matches Some(bytes) ==> {
                &&& bytes.len() == HEADER_LEN + size + footer_len
                &&& bytes.take(HEADER_LEN as int) == plt0_header(encoding)
                &&& bytes.subrange(HEADER_LEN as int, HEADER_LEN + size) == gct.skip(
                    gct.len() - size,
                )
                &&& bytes.skip(HEADER_LEN + size) == spec_encode_footer(stem).unwrap()
            }
        }),
{
    let encoding = gct[GCT_ENCODING_OFFSET as int];
    if has_palette(encoding) {
        let bytes = spec_gct_to_tex0(gct, stem).unwrap().plt0.unwrap();
        let size = palette_size(encoding) as int;
        let footer = spec_encode_footer(stem).unwrap();
        let palette = payload_of(gct).skip(gct_image_len(gct));
        assert(palette =~= gct.skip(gct.len() - size));
        assert(bytes.take(HEADER_LEN as int) =~= plt0_header(encoding));
        assert(bytes.subrange(HEADER_LEN as int, HEADER_LEN + size) =~= palette);
        assert(bytes.skip(HEADER_LEN + size) =~= footer);
    }
}

/// Converts a GCT container to a TEX0 container and, for CI4 and CI8, a PLT0
/// container. `stem` is the file stem that the footers store.
///
/// Fails with [`ConversionError::DataTooLarge`] for a buffer longer than a
/// 32-bit length can count, with [`ConversionError::UnexpectedEof`] for one
/// of fewer than 0x42 bytes, with [`ConversionError::TruncatedPalette`]
/// where the payload is smaller than the palette of the encoding, and with
/// [`ConversionError::NonAsciiStem`] or [`ConversionError::StemTooLong`]
/// where the stem has no footer, in this order.
pub fn gct_to_tex0(gct: &[u8], stem: &[u8]) -> (converted: Result<Tex0Artifacts, ConversionError>)
    ensures
        match converted {
            Ok(artifacts) => spec_gct_to_tex0(gct@, stem@) == Ok::<
                Tex0ArtifactsView,
                ConversionError,
            >(artifacts@),
            Err(e) => spec_gct_to_tex0(gct@, stem@) == Err::<Tex0ArtifactsView, ConversionError>(
                e,
            ),
        },
        converted matches Ok(artifacts) ==> {
            let encoding = gct@[GCT_ENCODING_OFFSET as int];
            let tex0 = artifacts.tex0@;
            &&& be32_at(tex0, TEX0_LENGTH_OFFSET as int) == gct_image_len(gct@)
            &&& be32_at(tex0, TEX0_LENGTH_PLUS_4_OFFSET as int) == be32_at(
                tex0,
                TEX0_LENGTH_OFFSET as int,
            ) + 4
            &&& artifacts.plt0 is Some <==> has_palette(encoding)
            &&& artifacts.plt0 matches Some(plt0) ==> plt0@.subrange(
                HEADER_LEN as int,
                HEADER_LEN + palette_size(encoding),
            ) == gct@.skip(gct@.len() - palette_size(encoding))
        },
{
    if gct.len() > MAX_FIELD_LEN {
        return Err(ConversionError::DataTooLarge);
    }
    if gct.len() < GCT_MIN_LEN {
        return Err(ConversionError::UnexpectedEof);
    }
    let fields = match read_gct_fields(gct) {
        Ok(fields) => fields,
        Err(e) => return Err(e),
    };
    let payload = &gct[HEADER_LEN..gct.len()];
    assert(payload@ =~= payload_of(gct@));

    let payload_len: u32 = payload.len() as u32;
    let palette_len: u32 = encoding_palette_size_from_byte([fields.encoding]);
    if payload_len < palette_len {
        return Err(ConversionError::TruncatedPalette);
    }
    let image_len: u32 = payload_len - palette_len;

    let footer = match encode_footer(stem) {
        Ok(footer) => footer,
        Err(e) => return Err(e),
    };

    let split: usize = match EncodingType::from_u8(fields.encoding) {
        Some(encoding) => payload.len() - encoding_palette_size_usize(encoding),
        None => payload.len(),
    };
    let image = &payload[0..split];
    let palette = &payload[split..payload.len()];
    assert(image@ =~= payload_of(gct@).take(gct_image_len(gct@)));
    assert(palette@ =~= payload_of(gct@).skip(gct_image_len(gct@)));

    let mut tex0 = build_tex0_header(image_len, fields);
    write_bytes(&mut tex0, image);
    write_bytes(&mut tex0, footer.as_slice());

    let plt0 = match build_plt0_header(fields.encoding) {
        Some(mut plt0) => {
            write_bytes(&mut plt0, palette);
            write_bytes(&mut plt0, footer.as_slice());
            Some(plt0)
        },
        None => None,
    };
    proof {
        lemma_tex0_length_fields(gct@, stem@);
        lemma_palette_extraction(gct@, stem@);
    }
    Ok(Tex0Artifacts { tex0, plt0 })
}

} // verus!
