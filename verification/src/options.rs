//! The compression options record, its native layout, and the two conversions
//! between them.
//!
//! [`CompressOptions`] is the record callers fill in. [`RawCompressOptions`]
//! mirrors the codec's own structure field for field, with every field as the
//! plain integer the codec stores. Layout knowledge lives in the conversion
//! pair and nowhere else: packing is total, unpacking succeeds exactly on the
//! records whose profile and job mode are codes the codec defines.

use vstd::prelude::*;
use vstd::std_specs::convert::FromSpecImpl;
use crate::constants::BLOCK_LEN;
use crate::enums::{Jobify, Profile};

verus! {

/// The signed reading of the 32 bits of `x`.
pub open spec fn signed_bits(x: u32) -> i32 {
    if x < 0x8000_0000 {
        x as i32
    } else {
        (x - 0x1_0000_0000) as i32
    }
}

/// The unsigned reading of the 32 bits of `x`.
pub open spec fn unsigned_bits(x: i32) -> u32 {
    if x >= 0 {
        x as u32
    } else {
        (x + 0x1_0000_0000) as u32
    }
}

/// The codec's integer for a flag.
pub open spec fn flag_bits(flag: bool) -> i32 {
    if flag {
        1
    } else {
        0
    }
}

/// Every word of a reserved block is zero.
pub open spec fn zeroed(block: [u32; 4]) -> bool {
    forall|i: int| 0 <= i < 4 ==> block[i] == 0
}

fn to_signed(x: u32) -> (y: i32)
    ensures
        y == signed_bits(x),
{
    if x < 0x8000_0000 {
        x as i32
    } else {
        ((x - 0x8000_0000) as i32) + i32::MIN
    }
}

fn to_unsigned(x: i32) -> (y: u32)
    ensures
        y == unsigned_bits(x),
{
    if x >= 0 {
        x as u32
    } else {
        ((x - i32::MIN) as u32) + 0x8000_0000
    }
}

fn to_flag(flag: bool) -> (bits: i32)
    ensures
        bits == flag_bits(flag),
{
    if flag {
        1
    } else {
        0
    }
}

/// Options to use for compression.
///
/// Typically, you would use the default options and only change the fields you
/// need to modify. The codec clamps what it is given; a record that has been
/// through the codec's validation is the one to use afterwards.
#[derive(Debug, Clone, Copy, PartialEq, Eq)]
pub struct CompressOptions {
    /// Was previously named `verbosity`, set to 0
    pub unused: u32,
    /// Cannot be used to reduce a compressor's default MML, but can be higher.
    /// On some types of data, a large MML (6 or 8) is a space-speed win.
    pub min_match_len: i32,
    /// Whether chunks should be independent, for seeking and parallelism
    pub seek_chunk_reset: bool,
    /// Length of independent seek chunks if `seek_chunk_reset` is true.
    /// This must be a power of 2 and >= [`BLOCK_LEN`]
    pub seek_chunk_len: u32,
    /// Decoder profile to target
    pub profile: Profile,
    /// Sets a maximum offset for matches, if lower than the maximum the format supports.
    /// <= 0 means infinite (use whole buffer).
    /// Often power of 2 but doesn't have to be.
    pub dictionary_size: i32,
    /// Number of bytes; It must gain at least this many bytes of compressed
    /// size to accept a speed-decreasing decision
    pub space_speed_tradeoff_bytes: i32,
    /// Was previously named `max_huffmans_per_chunk`, set to 0
    pub unused2: i32,
    /// Whether the encoder should send CRCs for each compressed quantum for
    /// integrity checking. This is necessary for using `CheckCRC::Yes` in
    /// decompression.
    pub send_quantum_crcs: bool,
    /// Size of local dictionary before needing a long range matcher.
    /// This does not set a window size for the decoder;
    /// it's useful to limit memory use and time taken in the encoder.
    /// This must be a power of 2 and < `LOCALDICTIONARYSIZE_MAX`.
    pub max_local_dictionary_size: u32,
    /// Whether the encoder should should find matches beyond
    /// `max_local_dictionary_size` when using a long range matcher.
    pub make_long_range_matcher: bool,
    /// Default is 0. If non-zero, this sets the size of the match finder structure
    /// (often a hash table).
    pub match_table_size_log2: i32,
    /// Controls internal job usage for the compressor.
    pub jobify: Jobify,
    /// Address of the caller's context for the job callbacks, 0 for none. It
    /// is carried through and never read.
    pub jobify_user_ptr: usize,
    /// Far match must be at least this long.
    pub far_match_min_len: i32,
    /// If not 0, the log2 of the offset that must meet `far_match_min_len`.
    pub far_match_offset_log2: i32,
    /// Reserved for future use, set to 0
    pub reserved: [u32; 4],
}

/// The options as the codec lays them out: the same fields in the same order,
/// each as the integer the codec stores.
#[derive(Debug, Clone, Copy, PartialEq, Eq)]
pub struct RawCompressOptions {
    pub unused_was_verbosity: u32,
    pub min_match_len: i32,
    pub seek_chunk_reset: i32,
    pub seek_chunk_len: i32,
    pub profile: u32,
    pub dictionary_size: i32,
    pub space_speed_tradeoff_bytes: i32,
    pub unused_was_max_huffmans_per_chunk: i32,
    pub send_quantum_crcs: i32,
    pub max_local_dictionary_size: i32,
    pub make_long_range_matcher: i32,
    pub match_table_size_log2: i32,
    pub jobify: u32,
    pub jobify_user_ptr: usize,
    pub far_match_min_len: i32,
    pub far_match_offset_log2: i32,
    pub reserved: [u32; 4],
}

/// Why a native record cannot be read: the first field, in layout order, that
/// holds an integer the codec does not define.
#[derive(Debug, Clone, Copy, PartialEq, Eq, Structural)]
pub enum InvalidOptions {
    /// The profile is not the code of a [`Profile`].
    Profile,
    /// The job mode is not the code of a [`Jobify`].
    Jobify,
}

impl CompressOptions {
    /// The native record that stands for these options.
    pub open spec fn to_raw(self) -> RawCompressOptions {
        RawCompressOptions {
            unused_was_verbosity: self.unused,
            min_match_len: self.min_match_len,
            seek_chunk_reset: flag_bits(self.seek_chunk_reset),
            seek_chunk_len: signed_bits(self.seek_chunk_len),
            profile: self.profile.code(),
            dictionary_size: self.dictionary_size,
            space_speed_tradeoff_bytes: self.space_speed_tradeoff_bytes,
            unused_was_max_huffmans_per_chunk: self.unused2,
            send_quantum_crcs: flag_bits(self.send_quantum_crcs),
            max_local_dictionary_size: signed_bits(self.max_local_dictionary_size),
            make_long_range_matcher: flag_bits(self.make_long_range_matcher),
            match_table_size_log2: self.match_table_size_log2,
            jobify: self.jobify.code(),
            jobify_user_ptr: self.jobify_user_ptr,
            far_match_min_len: self.far_match_min_len,
            far_match_offset_log2: self.far_match_offset_log2,
            reserved: self.reserved,
        }
    }

    /// The retired fields and the reserved block hold nothing but zeros.
    pub open spec fn padding_is_zero(self) -> bool {
        &&& self.unused == 0
        &&& self.unused2 == 0
        &&& zeroed(self.reserved)
    }

    /// These are the codec's built-in options.
    pub open spec fn is_default(self) -> bool {
        &&& self.padding_is_zero()
        &&& self.min_match_len == 0
        &&& !self.seek_chunk_reset
        &&& self.seek_chunk_len == BLOCK_LEN
        &&& self.profile == Profile::Main
        &&& self.dictionary_size == 0
        &&& self.space_speed_tradeoff_bytes == 256
        &&& !self.send_quantum_crcs
        &&& self.max_local_dictionary_size == 0x100_0000
        &&& self.make_long_range_matcher
        &&& self.match_table_size_log2 == 0
        &&& self.jobify == Jobify::Default
        &&& self.jobify_user_ptr == 0
        &&& self.far_match_min_len == 0
        &&& self.far_match_offset_log2 == 0
    }

    /// Reads a native record whose profile and job mode are known to be codes.
    pub fn from_raw(raw: RawCompressOptions) -> (options: CompressOptions)
        requires
            raw.is_readable(),
        ensures
            options == raw.read(),
    {
        CompressOptions {
            unused: raw.unused_was_verbosity,
            min_match_len: raw.min_match_len,
            seek_chunk_reset: raw.seek_chunk_reset != 0,
            seek_chunk_len: to_unsigned(raw.seek_chunk_len),
            profile: Profile::from_raw(raw.profile),
            dictionary_size: raw.dictionary_size,
            space_speed_tradeoff_bytes: raw.space_speed_tradeoff_bytes,
            unused2: raw.unused_was_max_huffmans_per_chunk,
            send_quantum_crcs: raw.send_quantum_crcs != 0,
            max_local_dictionary_size: to_unsigned(raw.max_local_dictionary_size),
            make_long_range_matcher: raw.make_long_range_matcher != 0,
            match_table_size_log2: raw.match_table_size_log2,
            jobify: Jobify::from_raw(raw.jobify),
            jobify_user_ptr: raw.jobify_user_ptr,
            far_match_min_len: raw.far_match_min_len,
            far_match_offset_log2: raw.far_match_offset_log2,
            reserved: raw.reserved,
        }
    }

    /// Reads a native record, or names the field that holds an undefined code.
    pub fn try_from_raw(raw: RawCompressOptions) -> (read: Result<CompressOptions, InvalidOptions>)
        ensures
            read == raw.try_read(),
    {
        if Profile::try_from_raw(raw.profile).is_none() {
            Err(InvalidOptions::Profile)
        } else if Jobify::try_from_raw(raw.jobify).is_none() {
            Err(InvalidOptions::Jobify)
        } else {
            Ok(CompressOptions::from_raw(raw))
        }
    }
}

impl RawCompressOptions {
    /// The profile and the job mode are codes the codec defines.
    pub open spec fn is_readable(self) -> bool {
        Profile::is_code(self.profile) && Jobify::is_code(self.jobify)
    }

    /// The record is readable and each flag is 0 or 1: it is the native form
    /// of some options.
    pub open spec fn is_canonical(self) -> bool {
        &&& self.is_readable()
        &&& 0 <= self.seek_chunk_reset <= 1
        &&& 0 <= self.send_quantum_crcs <= 1
        &&& 0 <= self.make_long_range_matcher <= 1
    }

    /// The retired fields and the reserved block hold nothing but zeros.
    pub open spec fn padding_is_zero(self) -> bool {
        &&& self.unused_was_verbosity == 0
        &&& self.unused_was_max_huffmans_per_chunk == 0
        &&& zeroed(self.reserved)
    }

    /// The options that a readable record stands for.
    pub open spec fn read(self) -> CompressOptions
        recommends
            self.is_readable(),
    {
        CompressOptions {
            unused: self.unused_was_verbosity,
            min_match_len: self.min_match_len,
            seek_chunk_reset: self.seek_chunk_reset != 0,
            seek_chunk_len: unsigned_bits(self.seek_chunk_len),
            profile: Profile::of_code(self.profile),
            dictionary_size: self.dictionary_size,
            space_speed_tradeoff_bytes: self.space_speed_tradeoff_bytes,
            unused2: self.unused_was_max_huffmans_per_chunk,
            send_quantum_crcs: self.send_quantum_crcs != 0,
            max_local_dictionary_size: unsigned_bits(self.max_local_dictionary_size),
            make_long_range_matcher: self.make_long_range_matcher != 0,
            match_table_size_log2: self.match_table_size_log2,
            jobify: Jobify::of_code(self.jobify),
            jobify_user_ptr: self.jobify_user_ptr,
            far_match_min_len: self.far_match_min_len,
            far_match_offset_log2: self.far_match_offset_log2,
            reserved: self.reserved,
        }
    }

    /// Reading with its failures: the profile is looked at before the job mode.
    pub open spec fn try_read(self) -> Result<CompressOptions, InvalidOptions> {
        if !Profile::is_code(self.profile) {
            Err(InvalidOptions::Profile)
        } else if !Jobify::is_code(self.jobify) {
            Err(InvalidOptions::Jobify)
        } else {
            Ok(self.read())
        }
    }
}

impl CompressOptions {
    /// What validation makes of these options when the codec's clamping
    /// routine is `normalize`: the options are packed, clamped, and read back.
    pub open spec fn validated(
        self,
        normalize: spec_fn(RawCompressOptions) -> RawCompressOptions,
    ) -> CompressOptions {
        normalize(self.to_raw()).read()
    }

    /// Packing loses nothing: the native record of any options is canonical,
    /// and reading it gives the options back.
    pub proof fn lemma_to_raw_then_read(self)
        ensures
            self.to_raw().is_canonical(),
            self.to_raw().read() == self,
            self.to_raw().try_read() == Ok::<CompressOptions, InvalidOptions>(self),
    {
        let raw = self.to_raw();
        assert(self.profile.code() == raw.profile);
        assert(self.jobify.code() == raw.jobify);
        Profile::lemma_code_injective(Profile::of_code(raw.profile), self.profile);
        Jobify::lemma_code_injective(Jobify::of_code(raw.jobify), self.jobify);
    }

    /// Neither direction of the conversion touches the padding: it is zero
    /// on one side exactly when it is zero on the other.
    pub proof fn lemma_padding_kept(self, raw: RawCompressOptions)
        ensures
            self.to_raw().padding_is_zero() <==> self.padding_is_zero(),
            raw.read().padding_is_zero() <==> raw.padding_is_zero(),
    {
    }

    /// Two options with the same native record are the same options.
    pub proof fn lemma_to_raw_injective(a: CompressOptions, b: CompressOptions)
        requires
            a.to_raw() == b.to_raw(),
        ensures
            a == b,
    {
        a.lemma_to_raw_then_read();
        b.lemma_to_raw_then_read();
    }

    /// Validating a second time changes nothing, for every clamping routine
    /// that answers a canonical record with a canonical record and leaves its
    /// own answers to canonical records as they are.
    pub proof fn lemma_validated_twice(
        self,
        normalize: spec_fn(RawCompressOptions) -> RawCompressOptions,
    )
        requires
            forall|raw: RawCompressOptions|
                raw.is_canonical() ==> (#[trigger] normalize(raw)).is_canonical(),
            forall|raw: RawCompressOptions|
                raw.is_canonical() ==> normalize(#[trigger] normalize(raw)) == normalize(raw),
        ensures
            self.validated(normalize).validated(normalize) == self.validated(normalize),
    {
        self.lemma_to_raw_then_read();
        let clamped = normalize(self.to_raw());
        clamped.lemma_read_then_to_raw();
        assert(normalize(clamped) == clamped);
    }
}

impl RawCompressOptions {
    /// Reading a readable record and packing the result gives the record back
    /// exactly when it is canonical.
    pub proof fn lemma_read_then_to_raw(self)
        requires
            self.is_readable(),
        ensures
            self.read().to_raw() == self <==> self.is_canonical(),
    {
        assert(Profile::of_code(self.profile).code() == self.profile);
        assert(Jobify::of_code(self.jobify).code() == self.jobify);
    }
}

impl From<CompressOptions> for RawCompressOptions {
    fn from(options: CompressOptions) -> (raw: RawCompressOptions) {
        RawCompressOptions {
            unused_was_verbosity: options.unused,
            min_match_len: options.min_match_len,
            seek_chunk_reset: to_flag(options.seek_chunk_reset),
            seek_chunk_len: to_signed(options.seek_chunk_len),
            profile: options.profile.into(),
            dictionary_size: options.dictionary_size,
            space_speed_tradeoff_bytes: options.space_speed_tradeoff_bytes,
            unused_was_max_huffmans_per_chunk: options.unused2,
            send_quantum_crcs: to_flag(options.send_quantum_crcs),
            max_local_dictionary_size: to_signed(options.max_local_dictionary_size),
            make_long_range_matcher: to_flag(options.make_long_range_matcher),
            match_table_size_log2: options.match_table_size_log2,
            jobify: options.jobify.into(),
            jobify_user_ptr: options.jobify_user_ptr,
            far_match_min_len: options.far_match_min_len,
            far_match_offset_log2: options.far_match_offset_log2,
            reserved: options.reserved,
        }
    }
}

impl FromSpecImpl<CompressOptions> for RawCompressOptions {
    open spec fn obeys_from_spec() -> bool {
        true
    }

    open spec fn from_spec(options: CompressOptions) -> RawCompressOptions {
        options.to_raw()
    }
}

impl Default for CompressOptions {
    /// The codec's built-in options.
    fn default() -> (options: CompressOptions)
        ensures
            options.is_default(),
    {
        CompressOptions {
            unused: 0,
            min_match_len: 0,
            seek_chunk_reset: false,
            seek_chunk_len: BLOCK_LEN,
            profile: Profile::Main,
            dictionary_size: 0,
            space_speed_tradeoff_bytes: 256,
            unused2: 0,
            send_quantum_crcs: false,
            max_local_dictionary_size: 0x100_0000,
            make_long_range_matcher: true,
            match_table_size_log2: 0,
            jobify: Jobify::Default,
            jobify_user_ptr: 0,
            far_match_min_len: 0,
            far_match_offset_log2: 0,
            reserved: [0, 0, 0, 0],
        }
    }
}

} // verus!
