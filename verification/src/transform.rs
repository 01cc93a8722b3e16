//! The two transform operations, as far as they can be described without the
//! codec: what is handed to it, and how its answer is read.
//!
//! A transform is one blocking call. Before it, the caller's selections and
//! buffer lengths are marshalled into the scalar arguments of the native entry
//! point ([`compress_call`], [`decompress_call`]); the buffers themselves
//! travel as addresses and are not this module's business. After it, the one
//! integer the codec returns is read as a size or as failure
//! ([`size_or_failure`]). Nothing is kept between calls.

use vstd::prelude::*;
use crate::constants::FAILED;
use crate::enums::{CheckCRC, CompressionLevel, Compressor, DecodeThreadPhase, Verbosity};
use crate::options::{CompressOptions, RawCompressOptions};

verus! {

/// The codec's integer for a decode that must tolerate hostile input. Every
/// decompression asks for it.
pub const FUZZ_SAFE: u32 = 1;

/// The scalar arguments of one call of the codec's compressor.
#[derive(Debug, Clone, Copy, PartialEq, Eq)]
pub struct CompressCall {
    /// Code of the compressor.
    pub compressor: i32,
    /// Number of bytes to compress.
    pub raw_len: isize,
    /// Code of the compression level.
    pub level: i32,
    /// The options in native layout; `None` leaves the codec to its built-ins.
    pub options: Option<RawCompressOptions>,
    /// Number of bytes of caller-owned scratch memory, 0 where there is none.
    pub scratch_size: isize,
}

/// The scalar arguments of one call of the codec's decompressor.
#[derive(Debug, Clone, Copy, PartialEq, Eq)]
pub struct DecompressCall {
    /// Number of compressed bytes available.
    pub comp_buf_size: isize,
    /// Number of bytes to produce.
    pub raw_len: isize,
    /// Always [`FUZZ_SAFE`].
    pub fuzz_safe: u32,
    /// Code of the CRC choice.
    pub check_crc: u32,
    /// Code of the verbosity.
    pub verbosity: u32,
    /// Number of bytes of dictionary, 0 where there is none.
    pub dec_buf_size: isize,
    /// Number of bytes of decoder memory; none is ever supplied.
    pub decoder_memory_size: isize,
    /// Code of the thread phase.
    pub thread_phase: u32,
}

/// A length the codec's signed size type can hold.
pub open spec fn fits_native(len: usize) -> bool {
    len <= isize::MAX
}

/// The length of an optional buffer: 0 where the buffer is absent.
pub open spec fn len_or_zero(len: Option<usize>) -> usize {
    match len {
        Some(n) => n,
        None => 0,
    }
}

/// The code handed to the codec for an optional CRC choice.
pub open spec fn check_crc_code(check_crc: Option<CheckCRC>) -> u32 {
    match check_crc {
        Some(choice) => choice.code(),
        None => CheckCRC::No.code(),
    }
}

/// The code handed to the codec for an optional verbosity.
pub open spec fn verbosity_code(verbosity: Option<Verbosity>) -> u32 {
    match verbosity {
        Some(level) => level.code(),
        None => Verbosity::Silent.code(),
    }
}

/// The code handed to the codec for an optional thread phase.
pub open spec fn thread_phase_code(thread_phase: Option<DecodeThreadPhase>) -> u32 {
    match thread_phase {
        Some(phase) => phase.code(),
        None => DecodeThreadPhase::Unthreaded.code(),
    }
}

/// What the codec's answer means for an output buffer of `capacity` bytes: a
/// positive size within the buffer is that many bytes written, anything else
/// is failure.
pub open spec fn reading(returned: isize, capacity: usize) -> Result<usize, u32> {
    if returned != FAILED && 0 < returned <= capacity {
        Ok(returned as usize)
    } else {
        Err(FAILED)
    }
}

fn native_len(len: usize) -> (native: Option<isize>)
    ensures
        native is Some <==> fits_native(len),
        native matches Some(n) ==> n == len,
{
    if len <= isize::MAX as usize {
        Some(len as isize)
    } else {
        None
    }
}

/// The call that a compression request becomes: the selections as their
/// codes, the lengths as they are, the options in native layout. A length the
/// codec's size type cannot hold leaves no call to make.
pub open spec fn compress_request(
    compressor: Compressor,
    decompressed_len: usize,
    level: CompressionLevel,
    options: Option<CompressOptions>,
    scratch_len: Option<usize>,
) -> Result<CompressCall, u32> {
    if fits_native(decompressed_len) && fits_native(len_or_zero(scratch_len)) {
        Ok(
            CompressCall {
                compressor: compressor.code(),
                raw_len: decompressed_len as isize,
                level: level.code(),
                options: match options {
                    Some(o) => Some(o.to_raw()),
                    None => None,
                },
                scratch_size: len_or_zero(scratch_len) as isize,
            },
        )
    } else {
        Err(FAILED)
    }
}

/// Marshals a compression request.
///
/// The request can be made whenever the lengths fit the codec's size type,
/// which the lengths of real buffers always do; otherwise it is refused with
/// the failure value.
pub fn compress_call(
    compressor: Compressor,
    decompressed_len: usize,
    level: CompressionLevel,
    options: Option<CompressOptions>,
    scratch_len: Option<usize>,
) -> (call: Result<CompressCall, u32>)
    ensures
        call == compress_request(compressor, decompressed_len, level, options, scratch_len),
        call is Ok <==> fits_native(decompressed_len) && fits_native(len_or_zero(scratch_len)),
{
    let scratch: usize = match scratch_len {
        Some(n) => n,
        None => 0,
    };
    match (native_len(decompressed_len), native_len(scratch)) {
        (Some(raw_len), Some(scratch_size)) => Ok(
            CompressCall {
                compressor: compressor.into(),
                raw_len,
                level: level.into(),
                options: match options {
                    Some(o) => Some(o.into()),
                    None => None,
                },
                scratch_size,
            },
        ),
        _ => Err(FAILED),
    }
}

/// The call that a decompression request becomes. Absent selections stand
/// for no CRC check, no logging and an unthreaded decode; fuzz safety is asked
/// for whatever the selections; no decoder memory is supplied. A length the
/// codec's size type cannot hold leaves no call to make.
pub open spec fn decompress_request(
    compressed_len: usize,
    decompressed_len: usize,
    dictionary_len: Option<usize>,
    check_crc: Option<CheckCRC>,
    verbosity: Option<Verbosity>,
    thread_phase: Option<DecodeThreadPhase>,
) -> Result<DecompressCall, u32> {
    if fits_native(compressed_len) && fits_native(decompressed_len) && fits_native(
        len_or_zero(dictionary_len),
    ) {
        Ok(
            DecompressCall {
                comp_buf_size: compressed_len as isize,
                raw_len: decompressed_len as isize,
                fuzz_safe: FUZZ_SAFE,
                check_crc: check_crc_code(check_crc),
                verbosity: verbosity_code(verbosity),
                dec_buf_size: len_or_zero(dictionary_len) as isize,
                decoder_memory_size: 0,
                thread_phase: thread_phase_code(thread_phase),
            },
        )
    } else {
        Err(FAILED)
    }
}

/// Marshals a decompression request.
///
/// The request is refused with the failure value only where a length does not
/// fit the codec's size type, which the lengths of real buffers always do.
pub fn decompress_call(
    compressed_len: usize,
    decompressed_len: usize,
    dictionary_len: Option<usize>,
    check_crc: Option<CheckCRC>,
    verbosity: Option<Verbosity>,
    thread_phase: Option<DecodeThreadPhase>,
) -> (call: Result<DecompressCall, u32>)
    ensures
        call == decompress_request(
            compressed_len,
            decompressed_len,
            dictionary_len,
            check_crc,
            verbosity,
            thread_phase,
        ),
        call is Ok <==> fits_native(compressed_len) && fits_native(decompressed_len)
            && fits_native(len_or_zero(dictionary_len)),
        call matches Ok(c) ==> c.fuzz_safe == FUZZ_SAFE,
{
    let dictionary: usize = match dictionary_len {
        Some(n) => n,
        None => 0,
    };
    let check_crc: CheckCRC = match check_crc {
        Some(choice) => choice,
        None => CheckCRC::default(),
    };
    let verbosity: Verbosity = match verbosity {
        Some(level) => level,
        None => Verbosity::default(),
    };
    let thread_phase: DecodeThreadPhase = match thread_phase {
        Some(phase) => phase,
        None => DecodeThreadPhase::default(),
    };
    match (native_len(compressed_len), native_len(decompressed_len), native_len(dictionary)) {
        (Some(comp_buf_size), Some(raw_len), Some(dec_buf_size)) => Ok(
            DecompressCall {
                comp_buf_size,
                raw_len,
                fuzz_safe: FUZZ_SAFE,
                check_crc: check_crc.into(),
                verbosity: verbosity.into(),
                dec_buf_size,
                decoder_memory_size: 0,
                thread_phase: thread_phase.into(),
            },
        ),
        _ => Err(FAILED),
    }
}

/// Reads the integer the codec returned from a transform whose output buffer
/// holds `capacity` bytes.
///
/// The failure value, and any answer that is not a size within the buffer,
/// is failure; every other answer is the number of bytes written.
pub fn size_or_failure(returned: isize, capacity: usize) -> (result: Result<usize, u32>)
    ensures
        result == reading(returned, capacity),
        result matches Ok(size) ==> 0 < size <= capacity && size == returned,
        result is Err <==> returned == FAILED || returned < 0 || returned > capacity,
        result matches Err(e) ==> e == FAILED,
{
    if returned <= 0 {
        Err(FAILED)
    } else {
        let size: usize = returned as usize;
        if size <= capacity {
            Ok(size)
        } else {
            Err(FAILED)
        }
    }
}

} // verus!
