//! From a TEX0 container, and the PLT0 container that goes with it, back to
//! a GCT container.

use vstd::prelude::*;
use crate::bytes::{be16, be32_at, lemma_be16_round_trip, write_bytes};
use crate::encoding::{encoding_has_palette, has_palette};
use crate::error::ConversionError;
use crate::footer::{footer_length, lemma_footer_length_bounds, spec_footer_length};
use crate::layout::{
    build_gct_header, gct_header, lemma_gct_header_fields, read_tex0_fields, tex0_fields,
    GCT_DATA_LEN_OFFSET, GCT_ENCODING_OFFSET, GCT_PALETTE_FLAG_OFFSET, GCT_WIDTH_OFFSET,
    HEADER_LEN, MAX_FIELD_LEN, TEX0_ENCODING_OFFSET, TEX0_HEIGHT_OFFSET, TEX0_WIDTH_OFFSET,
};

verus! {

/// What converting one TEX0 container gives.
#[derive(Debug, PartialEq, Eq)]
pub struct GctArtifact {
    /// The GCT container: header, image bytes, palette bytes if any.
    pub gct: Vec<u8>,
    /// [`ConversionError::MissingPaletteInput`] where the encoding carries a
    /// palette and no PLT0 container was supplied; the container then holds
    /// the image alone.
    pub warning: Option<ConversionError>,
}

/// The contents of a [`GctArtifact`], with the container as a byte sequence.
pub struct GctArtifactView {
    /// The bytes of the GCT container.
    pub gct: Seq<u8>,
    /// The condition reported beside the container, if any.
    pub warning: Option<ConversionError>,
}

impl View for GctArtifact {
    type V = GctArtifactView;

    open spec fn view(&self) -> GctArtifactView {
        GctArtifactView { gct: self.gct@, warning: self.warning }
    }
}

/// The data of a TEX0 or PLT0 container written under a stem of `stem_len`
/// bytes: what stands between the header and the footer. A container too
/// short to hold both has none.
pub open spec fn spec_container_data(container: Seq<u8>, stem_len: nat) -> Result<
    Seq<u8>,
    ConversionError,
> {
    if container.len() < HEADER_LEN + spec_footer_length(stem_len) {
        Err(ConversionError::UnexpectedEof)
    } else {
        Ok(container.subrange(HEADER_LEN as int, container.len() - spec_footer_length(stem_len)))
    }
}

/// What converting `tex0`, together with `plt0` where one is supplied, gives
/// under the stem `stem`.
///
/// `tex0` is refused as ending too early where it cannot hold a header and
/// the footer of the stem, then an image too long for a 32-bit length, then
/// a `plt0` that ends too early in the same way. Otherwise the image bytes
/// of `tex0` go behind a GCT header whose data length counts them alone, and
/// the palette bytes of `plt0`, where it is supplied, behind the image
/// bytes. A palette-bearing encoding without `plt0` is reported beside the
/// container.
pub open spec fn spec_tex0_to_gct(tex0: Seq<u8>, plt0: Option<Seq<u8>>, stem: Seq<u8>) -> Result<
    GctArtifactView,
    ConversionError,
> {
    match spec_container_data(tex0, stem.len()) {
        Err(e) => Err(e),
        Ok(image) => if image.len() > u32::MAX {
            Err(ConversionError::DataTooLarge)
        } else {
            let fields = tex0_fields(tex0);
            let header = gct_header(image.len() as u32, fields);
            match plt0 {
                None => Ok(
                    GctArtifactView {
                        gct: header + image,
                        warning: if has_palette(fields.encoding) {
                            Some(ConversionError::MissingPaletteInput)
                        } else {
                            None
                        },
                    },
                ),
                Some(container) => match spec_container_data(container, stem.len()) {
                    Err(e) => Err(e),
                    Ok(palette) => Ok(
                        GctArtifactView { gct: header + image + palette, warning: None },
                    ),
                },
            }
        },
    }
}

/// In every GCT container that a conversion gives, the data length counts
/// the image bytes of the TEX0 container alone: neither its footer nor any
/// palette byte.
pub proof fn lemma_gct_data_length(tex0: Seq<u8>, plt0: Option<Seq<u8>>, stem: Seq<u8>)
    requires
        spec_tex0_to_gct(tex0, plt0, stem) is Ok,
    ensures
        ({
            let gct = spec_tex0_to_gct(tex0, plt0, stem).unwrap().gct;
            let data_len = be32_at(gct, GCT_DATA_LEN_OFFSET as int);
            &&& data_len == tex0.len() - HEADER_LEN - spec_footer_length(stem.len())
            &&& plt0 is None ==> gct.len() == HEADER_LEN + data_len
            &&& plt0 matches Some(container) ==> gct.len() == HEADER_LEN + data_len + (
            container.len() - HEADER_LEN - spec_footer_length(stem.len()))
        }),
{
    let gct = spec_tex0_to_gct(tex0, plt0, stem).unwrap().gct;
    let image = spec_container_data(tex0, stem.len()).unwrap();
    let header = gct_header(image.len() as u32, tex0_fields(tex0));
    lemma_gct_header_fields(image.len() as u32, tex0_fields(tex0));
    assert(gct.subrange(0, HEADER_LEN as int) =~= header);
}

/// Width, height and encoding pass from the TEX0 header to the GCT header
/// byte for byte, the palette flag is 2 for an encoding with a palette and 1
/// for any other, and the image bytes behind the header are those of the
/// TEX0 container.
pub proof fn lemma_gct_carries_tex0_fields(tex0: Seq<u8>, plt0: Option<Seq<u8>>, stem: Seq<u8>)
    requires
        spec_tex0_to_gct(tex0, plt0, stem) is Ok,
    ensures
        ({
            let gct = spec_tex0_to_gct(tex0, plt0, stem).unwrap().gct;
            let encoding = tex0[TEX0_ENCODING_OFFSET as int];
            let image_len = tex0.len() - HEADER_LEN - spec_footer_length(stem.len());
            &&& gct.subrange(GCT_WIDTH_OFFSET as int, GCT_WIDTH_OFFSET + 4) == tex0.subrange(
                TEX0_WIDTH_OFFSET as int,
                TEX0_WIDTH_OFFSET + 4,
            )
            &&& gct[GCT_ENCODING_OFFSET as int] == encoding
            &&& gct[GCT_PALETTE_FLAG_OFFSET as int] == (if has_palette(encoding) {
                2u8
            } else {
                1u8
            })
            &&& gct.subrange(HEADER_LEN as int, HEADER_LEN + image_len) == tex0.subrange(
                HEADER_LEN as int,
                HEADER_LEN + image_len,
            )
        }),
{
    let gct = spec_tex0_to_gct(tex0, plt0, stem).unwrap().gct;
    let image = spec_container_data(tex0, stem.len()).unwrap();
    let fields = tex0_fields(tex0);
    let header = gct_header(image.len() as u32, fields);
    lemma_footer_length_bounds(stem.len());
    lemma_gct_header_fields(image.len() as u32, fields);
    lemma_be16_round_trip(fields.width, tex0, TEX0_WIDTH_OFFSET as int);
    lemma_be16_round_trip(fields.height, tex0, TEX0_HEIGHT_OFFSET as int);
    assert(gct.subrange(0, HEADER_LEN as int) =~= header);
    assert(header.subrange(GCT_WIDTH_OFFSET as int, GCT_WIDTH_OFFSET + 4) =~= be16(fields.width)
        + be16(fields.height));
    assert(gct.subrange(GCT_WIDTH_OFFSET as int, GCT_WIDTH_OFFSET + 4) =~= tex0.subrange(
        TEX0_WIDTH_OFFSET as int,
        TEX0_WIDTH_OFFSET + 4,
    ));
    assert(gct[GCT_ENCODING_OFFSET as int] == header[GCT_ENCODING_OFFSET as int]);
    assert(gct[GCT_PALETTE_FLAG_OFFSET as int] == header[GCT_PALETTE_FLAG_OFFSET as int]);
    assert(gct.subrange(HEADER_LEN as int, HEADER_LEN + image.len()) =~= tex0.subrange(
        HEADER_LEN as int,
        HEADER_LEN + image.len(),
    ));
}

/// Borrows the data of a TEX0 or PLT0 container written under a stem of
/// `stem_len` bytes: what stands between the header and the footer.
///
/// Fails with [`ConversionError::UnexpectedEof`] exactly when the container
/// is too short to hold a header and that footer.
pub fn container_data(container: &[u8], stem_len: usize) -> (data: Result<&[u8], ConversionError>)
    ensures
        match data {
            Ok(bytes) => spec_container_data(container@, stem_len as nat) == Ok::<
                Seq<u8>,
                ConversionError,
            >(bytes@),
            Err(e) => spec_container_data(container@, stem_len as nat) == Err::<
                Seq<u8>,
                ConversionError,
            >(e),
        },
{
    proof {
        lemma_footer_length_bounds(stem_len as nat);
    }
    if container.len() < HEADER_LEN {
        return Err(ConversionError::UnexpectedEof);
    }
    let payload_len: usize = container.len() - HEADER_LEN;
    if stem_len > payload_len {
        return Err(ConversionError::UnexpectedEof);
    }
    let footer_len: usize = footer_length(stem_len);
    if payload_len < footer_len {
        return Err(ConversionError::UnexpectedEof);
    }
    Ok(&container[HEADER_LEN..container.len() - footer_len])
}

/// Converts a TEX0 container back to a GCT container. `stem` is the file
/// stem under which the TEX0 container was written; `plt0` is the PLT0
/// container written beside it, for an encoding that carries a palette.
///
/// Fails with [`ConversionError::UnexpectedEof`] where `tex0`, or `plt0` if
/// supplied, is too short to hold a header and the footer of the stem, and
/// with [`ConversionError::DataTooLarge`] where the image is longer than a
/// 32-bit length can count. Where the encoding carries a palette and `plt0`
/// is `None`, the container is built from the image alone and
/// [`ConversionError::MissingPaletteInput`] is reported beside it.
pub fn tex0_to_gct(tex0: &[u8], plt0: Option<&[u8]>, stem: &[u8]) -> (converted: Result<
    GctArtifact,
    ConversionError,
>)
    ensures
        match converted {
            Ok(artifact) => spec_tex0_to_gct(
                tex0@,
                match plt0 {
                    Some(container) => Some(container@),
                    None => None,
                },
                stem@,
            ) == Ok::<GctArtifactView, ConversionError>(artifact@),
            Err(e) => spec_tex0_to_gct(
                tex0@,
                match plt0 {
                    Some(container) => Some(container@),
                    None => None,
                },
                stem@,
            ) == Err::<GctArtifactView, ConversionError>(e),
        },
        converted matches Ok(artifact) ==> be32_at(artifact.gct@, GCT_DATA_LEN_OFFSET as int)
            == tex0@.len() - HEADER_LEN - spec_footer_length(stem@.len()),
{
    let image = match container_data(tex0, stem.len()) {
        Ok(image) => image,
        Err(e) => return Err(e),
    };
    proof {
        lemma_footer_length_bounds(stem@.len());
    }
    let fields = match read_tex0_fields(tex0) {
        Ok(fields) => fields,
        Err(e) => return Err(e),
    };
    if image.len() > MAX_FIELD_LEN {
        return Err(ConversionError::DataTooLarge);
    }
    let data_len: u32 = image.len() as u32;
    let palette = match plt0 {
        Some(container) => match container_data(container, stem.len()) {
            Ok(palette) => Some(palette),
            Err(e) => return Err(e),
        },
        None => None,
    };

    let mut gct = build_gct_header(data_len, fields);
    write_bytes(&mut gct, image);
    let warning = match palette {
        Some(palette) => {
            write_bytes(&mut gct, palette);
            None
        },
        None => if encoding_has_palette([fields.encoding]) {
            Some(ConversionError::MissingPaletteInput)
        } else {
            None
        },
    };
    proof {
        lemma_gct_data_length(
            tex0@,
            match plt0 {
                Some(container) => Some(container@),
                None => None,
            },
            stem@,
        );
    }
    Ok(GctArtifact { gct, warning })
}

} // verus!
