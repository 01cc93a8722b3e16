//! A safe model of the boundary in front of the Oodle block compressors.
//!
//! The codec itself is reached through a C interface and is never part of
//! this crate. What lives here is everything that can be said about a call
//! without making it: the identifiers the codec understands, the options
//! record and its native layout, the scalar arguments of the two transform
//! entry points, and the reading of the single integer the codec answers with.

pub mod constants;
pub mod enums;
pub mod options;
pub mod transform;

pub use constants::{BLOCK_LEN, FAILED, LOCALDICTIONARYSIZE_MAX};
pub use enums::{
    CheckCRC, CompressionLevel, Compressor, DecodeThreadPhase, Jobify, Profile, Verbosity,
};
pub use options::{CompressOptions, InvalidOptions, RawCompressOptions};
pub use transform::{
    compress_call, decompress_call, size_or_failure, CompressCall, DecompressCall, FUZZ_SAFE,
};
