use gctconv::error::ConversionError;

#[test]
fn only_the_missing_palette_is_not_fatal() {
    assert!(ConversionError::UnexpectedEof.is_fatal());
    assert!(ConversionError::TruncatedPalette.is_fatal());
    assert!(ConversionError::StemTooLong.is_fatal());
    assert!(ConversionError::NonAsciiStem.is_fatal());
    assert!(ConversionError::DataTooLarge.is_fatal());
    assert!(!ConversionError::MissingPaletteInput.is_fatal());
}
