use gctconv::error::ConversionError;
use gctconv::layout::{
    build_gct_header, build_plt0_header, build_tex0_header, read_gct_fields, read_tex0_fields,
    ImageFields, GCT_MAGIC, GCT_MIN_LEN, GCT_TOOL_SIGNATURE, HEADER_LEN, PLT0_HEADER_CI4,
    PLT0_HEADER_CI8, TEX0_MAGIC,
};

#[test]
fn tex0_header_of_a_ci4_image() {
    let fields = ImageFields { width: 0x0020, height: 0x0010, encoding: 0x08 };
    let header = build_tex0_header(0x400, fields);
    let mut expected = vec![
        0x54, 0x45, 0x58, 0x30, // "TEX0"
        0x00, 0x00, 0x04, 0x00, // image length
        0x00, 0x00, 0x00, 0x01, // version
        0x00, 0x00, 0x00, 0x00, // zero
        0x00, 0x00, 0x00, 0x40, // header size
        0x00, 0x00, 0x04, 0x04, // image length + 4
        0x00, 0x00, 0x00, 0x01, // palette flag
        0x00, 0x20, // width
        0x00, 0x10, // height
        0x00, 0x00, 0x00, // pad
        0x08, // encoding
        0x00, 0x00, 0x00, 0x01, // mip-map count + 1
    ];
    expected.extend([0u8; 24]);
    assert_eq!(header, expected);
    assert_eq!(header.len(), 0x40);
}

#[test]
fn tex0_header_of_an_image_without_palette() {
    let fields = ImageFields { width: 0x0102, height: 0x0304, encoding: 0x0E };
    let header = build_tex0_header(0x0102_0304, fields);
    assert_eq!(&header[0..4], b"TEX0");
    assert_eq!(&header[4..8], &[0x01, 0x02, 0x03, 0x04]);
    assert_eq!(&header[0x14..0x18], &[0x01, 0x02, 0x03, 0x08]);
    assert_eq!(&header[0x18..0x1C], &[0, 0, 0, 0]);
    assert_eq!(&header[0x1C..0x20], &[0x01, 0x02, 0x03, 0x04]);
    assert_eq!(header[0x23], 0x0E);
    assert_eq!(header.len(), HEADER_LEN);
}

#[test]
fn tex0_header_at_the_largest_image_length() {
    let fields = ImageFields { width: 1, height: 1, encoding: 0 };
    let header = build_tex0_header(u32::MAX - 4, fields);
    assert_eq!(&header[4..8], &[0xFF, 0xFF, 0xFF, 0xFB]);
    assert_eq!(&header[0x14..0x18], &[0xFF, 0xFF, 0xFF, 0xFF]);
}

#[test]
fn gct_header_of_a_ci8_image() {
    let fields = ImageFields { width: 0x0040, height: 0x0080, encoding: 0x09 };
    let header = build_gct_header(0x2000, fields);
    let mut expected = vec![
        0x47, 0x43, 0x4E, 0x54, 0x00, 0x00, 0x00, 0x03, 0x00, 0x40, 0x00, 0x00, // magic
        0x00, 0x00, 0x20, 0x00, // data length
        0x00, 0x40, // width
        0x00, 0x80, // height
        0x09, // encoding
        0x02, // palette flag
    ];
    expected.extend([0u8; 10]);
    expected.extend([
        0x20, 0x74, 0x72, 0x65, 0x79, 0x61, 0x72, 0x63, 0x68, 0x67, 0x63, 0x74, 0x2E, 0x38,
        0x62, 0x69, 0x20, 0x76, 0x32, 0x2E, 0x32, 0x2E, 0x34, 0x23, 0x30, 0x00, 0x00, 0x00,
        0x00, 0x00, 0x00, 0x00,
    ]);
    assert_eq!(header, expected);
    assert_eq!(header.len(), 0x40);
}

#[test]
fn gct_header_flag_is_one_without_palette() {
    for encoding in 0..=255u8 {
        let fields = ImageFields { width: 2, height: 3, encoding };
        let header = build_gct_header(6, fields);
        let expected: u8 = if encoding == 8 || encoding == 9 { 2 } else { 1 };
        assert_eq!(header[0x15], expected);
        assert_eq!(header[0x14], encoding);
        assert_eq!(header.len(), 0x40);
    }
}

#[test]
fn plt0_header_exists_for_ci4_and_ci8_only() {
    for encoding in 0..=255u8 {
        let header = build_plt0_header(encoding);
        match encoding {
            0x08 => assert_eq!(header, Some(PLT0_HEADER_CI4.to_vec())),
            0x09 => assert_eq!(header, Some(PLT0_HEADER_CI8.to_vec())),
            _ => assert_eq!(header, None),
        }
    }
}

#[test]
fn plt0_templates_hold_their_sizes() {
    assert_eq!(&PLT0_HEADER_CI4[0..4], b"PLT0");
    assert_eq!(&PLT0_HEADER_CI8[0..4], b"PLT0");
    // length of header and palette, and that length and four more
    assert_eq!(&PLT0_HEADER_CI4[4..8], &0x60u32.to_be_bytes());
    assert_eq!(&PLT0_HEADER_CI4[0x14..0x18], &0x64u32.to_be_bytes());
    assert_eq!(&PLT0_HEADER_CI8[4..8], &0x240u32.to_be_bytes());
    assert_eq!(&PLT0_HEADER_CI8[0x14..0x18], &0x244u32.to_be_bytes());
    // number of palette entries
    assert_eq!(&PLT0_HEADER_CI4[0x1C..0x1E], &16u16.to_be_bytes());
    assert_eq!(&PLT0_HEADER_CI8[0x1C..0x1E], &256u16.to_be_bytes());
    assert!(PLT0_HEADER_CI4[0x1E..].iter().all(|b| *b == 0));
    assert!(PLT0_HEADER_CI8[0x1E..].iter().all(|b| *b == 0));
}

#[test]
fn layout_constants_have_their_documented_values() {
    assert_eq!(HEADER_LEN, 0x40);
    assert_eq!(GCT_MIN_LEN, 0x42);
    assert_eq!(&GCT_MAGIC[0..4], b"GCNT");
    assert_eq!(GCT_MAGIC.len(), 12);
    assert_eq!(GCT_TOOL_SIGNATURE.len(), 32);
    assert_eq!(&GCT_TOOL_SIGNATURE[..25], b" treyarchgct.8bi v2.2.4#0");
    assert_eq!(&TEX0_MAGIC, b"TEX0");
}

#[test]
fn gct_fields_are_read_at_their_offsets() {
    let mut gct = vec![0u8; 0x15];
    gct[0x10] = 0x01;
    gct[0x11] = 0x02;
    gct[0x12] = 0x03;
    gct[0x13] = 0x04;
    gct[0x14] = 0x09;
    assert_eq!(
        read_gct_fields(&gct),
        Ok(ImageFields { width: 0x0102, height: 0x0304, encoding: 0x09 })
    );
    assert_eq!(read_gct_fields(&gct[..0x14]), Err(ConversionError::UnexpectedEof));
    assert_eq!(read_gct_fields(&gct[..0x11]), Err(ConversionError::UnexpectedEof));
    assert_eq!(read_gct_fields(&[]), Err(ConversionError::UnexpectedEof));
}

#[test]
fn tex0_fields_are_read_at_their_offsets() {
    let mut tex0 = vec![0u8; 0x24];
    tex0[0x1C] = 0x0A;
    tex0[0x1D] = 0x0B;
    tex0[0x1E] = 0x0C;
    tex0[0x1F] = 0x0D;
    tex0[0x23] = 0x08;
    assert_eq!(
        read_tex0_fields(&tex0),
        Ok(ImageFields { width: 0x0A0B, height: 0x0C0D, encoding: 0x08 })
    );
    assert_eq!(read_tex0_fields(&tex0[..0x23]), Err(ConversionError::UnexpectedEof));
    assert_eq!(read_tex0_fields(&tex0[..0x1D]), Err(ConversionError::UnexpectedEof));
}

#[test]
fn built_headers_give_their_fields_back() {
    let fields = ImageFields { width: 0xBEEF, height: 0x0001, encoding: 0x05 };
    assert_eq!(read_tex0_fields(&build_tex0_header(77, fields)), Ok(fields));
    assert_eq!(read_gct_fields(&build_gct_header(77, fields)), Ok(fields));
}
