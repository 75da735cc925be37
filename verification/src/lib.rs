//! Conversion between the flat GCT texture container and the TEX0 / PLT0
//! resource pair.
//!
//! Every function here works on byte buffers that are already in memory and
//! hands complete byte buffers back.

pub mod bytes;
pub mod encoding;
pub mod error;
pub mod footer;
pub mod layout;
pub mod round_trip;
pub mod to_gct;
pub mod to_tex0;
