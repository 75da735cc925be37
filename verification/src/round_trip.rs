//! Converting a GCT container forth and back gives the container again.

use vstd::prelude::*;
use crate::encoding::palette_size;
use crate::error::ConversionError;
use crate::footer::{
    is_ascii_bytes, lemma_encoded_length_is_footer_length, spec_encode_footer, spec_footer_length,
    MAX_STEM_LEN,
};
use crate::layout::{
    gct_fields, gct_header, lemma_tex0_header_fields, tex0_fields, tex0_header,
    GCT_ENCODING_OFFSET, GCT_MIN_LEN, HEADER_LEN,
};
use crate::to_gct::{spec_container_data, spec_tex0_to_gct, GctArtifactView};
use crate::to_tex0::{gct_image_len, payload_of, spec_gct_to_tex0};

verus! {

/// A stem that has a footer: ASCII bytes, at most 255 of them.
pub open spec fn is_valid_stem(stem: Seq<u8>) -> bool {
    is_ascii_bytes(stem) && stem.len() <= MAX_STEM_LEN
}

/// A GCT container as the layout describes it: long enough to be accepted
/// and short enough for a 32-bit length, with a payload that holds the
/// palette of its encoding, and with a header that is the GCT header of its
/// own width, height, encoding and image length.
pub open spec fn is_valid_gct(gct: Seq<u8>) -> bool {
    &&& GCT_MIN_LEN <= gct.len() <= u32::MAX
    &&& palette_size(gct[GCT_ENCODING_OFFSET as int]) <= payload_of(gct).len()
    &&& gct.take(HEADER_LEN as int) == gct_header(gct_image_len(gct) as u32, gct_fields(gct))
}

/// For every valid GCT container and every ASCII stem of at most 255 bytes,
/// the forward conversion succeeds, and the reverse conversion of what it
/// gives, under the same stem, succeeds without a warning and gives the
/// container back byte for byte.
pub proof fn lemma_round_trip(gct: Seq<u8>, stem: Seq<u8>)
    requires
        is_valid_gct(gct),
        is_valid_stem(stem),
    ensures
        spec_gct_to_tex0(gct, stem) is Ok,
        spec_tex0_to_gct(
            spec_gct_to_tex0(gct, stem).unwrap().tex0,
            spec_gct_to_tex0(gct, stem).unwrap().plt0,
            stem,
        ) == Ok::<GctArtifactView, ConversionError>(
            GctArtifactView { gct, warning: None },
        ),
{
    let artifacts = spec_gct_to_tex0(gct, stem).unwrap();
    let fields = gct_fields(gct);
    let image_len = gct_image_len(gct);
    let image = payload_of(gct).take(image_len);
    let palette = payload_of(gct).skip(image_len);
    let footer = spec_encode_footer(stem).unwrap();
    let footer_len = spec_footer_length(stem.len());
    let tex0 = artifacts.tex0;

    lemma_encoded_length_is_footer_length(stem);
    lemma_tex0_header_fields(image_len as u32, fields);
    let tex0_head = tex0_header(image_len as u32, fields);
    assert(tex0.len() == HEADER_LEN + image_len + footer_len);
    assert(tex0.subrange(0, HEADER_LEN as int) =~= tex0_head);
    assert(tex0_fields(tex0) == fields) by {
        assert(tex0[0x1C] == tex0_head[0x1C] && tex0[0x1D] == tex0_head[0x1D]);
        assert(tex0[0x1E] == tex0_head[0x1E] && tex0[0x1F] == tex0_head[0x1F]);
        assert(tex0[0x23] == tex0_head[0x23]);
    }
    assert(spec_container_data(tex0, stem.len()).unwrap() =~= image);

    let rebuilt_head = gct_header(image_len as u32, fields);
    assert(rebuilt_head == gct.take(HEADER_LEN as int));
    match artifacts.plt0 {
        Some(plt0) => {
            assert(spec_container_data(plt0, stem.len()).unwrap() =~= palette);
            assert(rebuilt_head + image + palette =~= gct);
        },
        None => {
            assert(palette.len() == 0);
            assert(rebuilt_head + image =~= gct);
        },
    }
}

} // verus!
