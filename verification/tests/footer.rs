use gctconv::error::ConversionError;
use gctconv::footer::{encode_footer, footer_length, is_ascii_stem, FOOTER_LEAD_IN, MAX_STEM_LEN};

#[test]
fn footer_of_a_three_byte_stem() {
    assert_eq!(
        encode_footer(b"foo"),
        Ok(vec![0x00, 0x00, 0x00, 0x03, b'f', b'o', b'o', 0x00, 0x00, 0x00])
    );
}

#[test]
fn footer_of_the_empty_stem() {
    assert_eq!(encode_footer(b""), Ok(vec![0, 0, 0, 0, 0, 0, 0, 0]));
    assert_eq!(footer_length(0), 8);
}

#[test]
fn footer_pad_for_each_remainder() {
    assert_eq!(encode_footer(b"a"), Ok(vec![0, 0, 0, 1, b'a', 0]));
    assert_eq!(encode_footer(b"ab"), Ok(vec![0, 0, 0, 2, b'a', b'b', 0, 0]));
    assert_eq!(encode_footer(b"abc"), Ok(vec![0, 0, 0, 3, b'a', b'b', b'c', 0, 0, 0]));
    assert_eq!(
        encode_footer(b"abcd"),
        Ok(vec![0, 0, 0, 4, b'a', b'b', b'c', b'd', 0, 0, 0, 0])
    );
    assert_eq!(
        encode_footer(b"abcde"),
        Ok(vec![0, 0, 0, 5, b'a', b'b', b'c', b'd', b'e', 0])
    );
}

#[test]
fn footer_length_exact_values() {
    assert_eq!(footer_length(0), 8);
    assert_eq!(footer_length(1), 6);
    assert_eq!(footer_length(2), 8);
    assert_eq!(footer_length(3), 10);
    assert_eq!(footer_length(4), 12);
    assert_eq!(footer_length(5), 10);
    assert_eq!(footer_length(254), 260);
    assert_eq!(footer_length(255), 262);
    assert_eq!(footer_length(256), 264);
    assert_eq!(footer_length(usize::MAX - 8), usize::MAX - 1);
}

#[test]
fn footer_length_is_the_encoded_length_for_every_stem_length() {
    for n in 0..=255usize {
        let stem = vec![b'x'; n];
        let footer = encode_footer(&stem).unwrap();
        assert_eq!(footer.len(), footer_length(n), "stem length {n}");
        assert_eq!(&footer[..3], &[0, 0, 0]);
        assert_eq!(footer[3] as usize, n);
        assert_eq!(&footer[4..4 + n], &stem[..]);
        let pad = &footer[4 + n..];
        assert!((1..=4).contains(&pad.len()), "stem length {n}");
        assert!(pad.iter().all(|b| *b == 0));
    }
}

#[test]
fn stem_of_255_bytes_is_accepted() {
    let stem = vec![b'a'; 255];
    let footer = encode_footer(&stem).unwrap();
    assert_eq!(footer[3], 0xFF);
    assert_eq!(footer.len(), footer_length(255));
    assert_eq!(footer.len(), 262);
}

#[test]
fn stem_of_256_bytes_is_too_long() {
    let stem = vec![b'a'; 256];
    assert_eq!(encode_footer(&stem), Err(ConversionError::StemTooLong));
    let stem = vec![b'a'; 1000];
    assert_eq!(encode_footer(&stem), Err(ConversionError::StemTooLong));
}

#[test]
fn stem_with_byte_0x80_is_not_ascii() {
    assert_eq!(encode_footer(&[0x80]), Err(ConversionError::NonAsciiStem));
    assert_eq!(encode_footer(&[b'a', 0x80, b'b']), Err(ConversionError::NonAsciiStem));
    assert_eq!(encode_footer(&[b'a', b'b', 0xFF]), Err(ConversionError::NonAsciiStem));
    assert_eq!(encode_footer("é".as_bytes()), Err(ConversionError::NonAsciiStem));
    assert_eq!(encode_footer(&[0x7F]), Ok(vec![0, 0, 0, 1, 0x7F, 0]));
}

#[test]
fn non_ascii_is_reported_before_length() {
    let mut stem = vec![b'a'; 300];
    stem[299] = 0x80;
    assert_eq!(encode_footer(&stem), Err(ConversionError::NonAsciiStem));
}

#[test]
fn is_ascii_stem_agrees_with_the_standard_library() {
    assert!(is_ascii_stem(b""));
    assert!(is_ascii_stem(b"texture_01"));
    assert!(is_ascii_stem(&[0x00, 0x7F]));
    assert!(!is_ascii_stem(&[0x80]));
    assert!(!is_ascii_stem(&[b'a', 0xC3, 0xA9]));
    for b in 0..=255u8 {
        assert_eq!(is_ascii_stem(&[b'a', b]), [b'a', b].is_ascii());
    }
}

#[test]
fn footer_constants_have_their_documented_values() {
    assert_eq!(FOOTER_LEAD_IN, 3);
    assert_eq!(MAX_STEM_LEN, 255);
}
