//! The conditions a conversion can report.

use vstd::prelude::*;

verus! {

/// What can go wrong while converting a container.
///
/// Every variant but [`ConversionError::MissingPaletteInput`] aborts the
/// conversion; that one only accompanies a container that was still produced.
#[derive(Clone, Copy, Debug, PartialEq, Eq)]
pub enum ConversionError {
    /// The input ends before a field or region that has to be there.
    UnexpectedEof,
    /// The payload is smaller than the palette its encoding declares.
    TruncatedPalette,
    /// The file stem is longer than the single length byte can count.
    StemTooLong,
    /// The file stem holds a byte outside ASCII.
    NonAsciiStem,
    /// The data is longer than a 32-bit length field can count.
    DataTooLarge,
    /// The encoding carries a palette but no palette container was supplied.
    MissingPaletteInput,
}

impl ConversionError {
    /// Whether the condition aborts the conversion.
    pub open spec fn spec_is_fatal(self) -> bool {
        self != ConversionError::MissingPaletteInput
    }

    /// Whether the condition aborts the conversion.
    #[verifier::when_used_as_spec(spec_is_fatal)]
    pub fn is_fatal(self) -> (fatal: bool)
        ensures
            fatal == self.spec_is_fatal(),
    {
        match self {
            ConversionError::MissingPaletteInput => false,
            _ => true,
        }
    }
}

} // verus!
