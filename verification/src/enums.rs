//! The closed sets of identifiers the codec recognizes, each with its mapping
//! to the integer the codec's interface uses for it.
//!
//! Every set has a `code` function that states its integers, and a conversion
//! into the raw integer type that is proved to return exactly that code. The
//! two sets the codec hands back inside an options record, [`Profile`] and
//! [`Jobify`], can also be read from a raw integer.

use vstd::prelude::*;
use vstd::std_specs::convert::FromSpecImpl;

verus! {

/// Set of compression algorithms.
///
/// Each compressor has its own trade-offs between compression ratio and speed.
#[derive(Debug, Clone, Copy, PartialEq, Eq, Structural)]
pub enum Compressor {
    /// No compression, just a copy
    NoCompression,
    /// Fast decompression, high compression ratio
    Kraken,
    /// Slightly slower decompression but higher compression ratio than Kraken
    Leviathan,
    /// Between Kraken and Selkie in speed with decent compression ratio
    Mermaid,
    /// "Super fast" relative to Mermaid. Used for maximum decompression speed
    Selkie,
    /// Automatically selects between Kraken, Leviathan, Mermaid, and Selkie
    Hydra,
}

impl Compressor {
    /// The integer by which the codec knows this compressor.
    pub open spec fn code(self) -> i32 {
        match self {
            Compressor::NoCompression => 3,
            Compressor::Kraken => 8,
            Compressor::Leviathan => 13,
            Compressor::Mermaid => 9,
            Compressor::Selkie => 11,
            Compressor::Hydra => 12,
        }
    }

    /// A code determines its compressor: no two share one.
    pub proof fn lemma_code_injective(a: Compressor, b: Compressor)
        requires
            a.code() == b.code(),
        ensures
            a == b,
    {
    }
}

impl From<Compressor> for i32 {
    fn from(value: Compressor) -> (raw: i32) {
        match value {
            Compressor::NoCompression => 3,
            Compressor::Kraken => 8,
            Compressor::Leviathan => 13,
            Compressor::Mermaid => 9,
            Compressor::Selkie => 11,
            Compressor::Hydra => 12,
        }
    }
}

impl FromSpecImpl<Compressor> for i32 {
    open spec fn obeys_from_spec() -> bool {
        true
    }

    open spec fn from_spec(value: Compressor) -> i32 {
        value.code()
    }
}

/// Set of compression levels.
///
/// A compressed data stream can be decompressed with any level, but the
/// compression level used to compress the data must be known.
///
/// The compression level controls the amount of work done by the compressor to
/// find the best compressed bitstream. It does not directly impact
/// decompression speed, it trades off encode speed for compression bitstream
/// quality.
///
/// The last four levels are aliases: each shares its code with the level it
/// stands for.
#[derive(Debug, Clone, Copy, PartialEq, Eq, Structural)]
pub enum CompressionLevel {
    /// Don't compress, just copy the data
    NoCompression,
    /// Lowest compression ratio, super fast
    SuperFast,
    /// Fastest with still decent compression ratio
    VeryFast,
    /// Good for daily use
    Fast,
    /// Standard medium speed
    Normal,
    /// Optimal parse level 1 (fastest)
    Optimal1,
    /// Optimal parse level 2 (recommended baseline)
    Optimal2,
    /// Optimal parse level 3 (slower)
    Optimal3,
    /// Optimal parse level 4 (very slow)
    Optimal4,
    /// Optimal parse level 5 (don't care about speed, just want best ratio)
    Optimal5,
    /// Faster than SuperFast, but lower compression ratio
    HyperFast1,
    /// Faster than HyperFast1, but lower compression ratio
    HyperFast2,
    /// Faster than HyperFast2, but lower compression ratio
    HyperFast3,
    /// Faster than HyperFast3, but lower compression ratio
    HyperFast4,
    /// Alias optimal standard level
    Optimal,
    /// Alias hyperfast base level
    HyperFast,
    /// Alias for the maximum compression level
    Max,
    /// Alias for the minimum compression level
    Min,
}

impl CompressionLevel {
    /// The integer by which the codec knows this level.
    pub open spec fn code(self) -> i32 {
        match self {
            CompressionLevel::NoCompression => 0,
            CompressionLevel::SuperFast => 1,
            CompressionLevel::VeryFast => 2,
            CompressionLevel::Fast => 3,
            CompressionLevel::Normal => 4,
            CompressionLevel::Optimal1 => 5,
            CompressionLevel::Optimal2 => 6,
            CompressionLevel::Optimal3 => 7,
            CompressionLevel::Optimal4 => 8,
            CompressionLevel::Optimal5 => 9,
            CompressionLevel::HyperFast1 => -1i32,
            CompressionLevel::HyperFast2 => -2i32,
            CompressionLevel::HyperFast3 => -3i32,
            CompressionLevel::HyperFast4 => -4i32,
            CompressionLevel::Optimal => 6,
            CompressionLevel::HyperFast => -1i32,
            CompressionLevel::Max => 9,
            CompressionLevel::Min => -4i32,
        }
    }

    /// The level an alias stands for; every other level stands for itself.
    pub open spec fn canonical(self) -> CompressionLevel {
        match self {
            CompressionLevel::Optimal => CompressionLevel::Optimal2,
            CompressionLevel::HyperFast => CompressionLevel::HyperFast1,
            CompressionLevel::Max => CompressionLevel::Optimal5,
            CompressionLevel::Min => CompressionLevel::HyperFast4,
            _ => self,
        }
    }

    /// Every code lies between the codes of `Min` and `Max`, an alias has the
    /// code of the level it stands for, and two levels share a code exactly
    /// when they stand for the same level.
    pub proof fn lemma_codes(a: CompressionLevel, b: CompressionLevel)
        ensures
            CompressionLevel::Min.code() <= a.code() <= CompressionLevel::Max.code(),
            a.code() == a.canonical().code(),
            a.code() == b.code() <==> a.canonical() == b.canonical(),
    {
    }
}

impl From<CompressionLevel> for i32 {
    fn from(value: CompressionLevel) -> (raw: i32) {
        match value {
            CompressionLevel::NoCompression => 0,
            CompressionLevel::SuperFast => 1,
            CompressionLevel::VeryFast => 2,
            CompressionLevel::Fast => 3,
            CompressionLevel::Normal => 4,
            CompressionLevel::Optimal1 => 5,
            CompressionLevel::Optimal2 => 6,
            CompressionLevel::Optimal3 => 7,
            CompressionLevel::Optimal4 => 8,
            CompressionLevel::Optimal5 => 9,
            CompressionLevel::HyperFast1 => -1,
            CompressionLevel::HyperFast2 => -2,
            CompressionLevel::HyperFast3 => -3,
            CompressionLevel::HyperFast4 => -4,
            CompressionLevel::Optimal => 6,
            CompressionLevel::HyperFast => -1,
            CompressionLevel::Max => 9,
            CompressionLevel::Min => -4,
        }
    }
}

impl FromSpecImpl<CompressionLevel> for i32 {
    open spec fn obeys_from_spec() -> bool {
        true
    }

    open spec fn from_spec(value: CompressionLevel) -> i32 {
        value.code()
    }
}

/// Decoder profile to target.
#[derive(Debug, Clone, Copy, PartialEq, Eq, Structural)]
pub enum Profile {
    /// Main profile, full feature set
    Main,
    /// Kraken only, limited feature set
    Reduced,
}

impl Profile {
    /// The integer by which the codec knows this profile.
    pub open spec fn code(self) -> u32 {
        match self {
            Profile::Main => 0,
            Profile::Reduced => 1,
        }
    }

    /// Whether `raw` is the code of some profile.
    pub open spec fn is_code(raw: u32) -> bool {
        exists|value: Profile| #[trigger] value.code() == raw
    }

    /// The profile with the code `raw`, where there is one.
    pub open spec fn of_code(raw: u32) -> Profile
        recommends
            Profile::is_code(raw),
    {
        choose|value: Profile| #[trigger] value.code() == raw
    }

    /// Reads a raw integer, or says that no profile has that code.
    pub fn try_from_raw(raw: u32) -> (found: Option<Profile>)
        ensures
            found is Some <==> Profile::is_code(raw),
            found matches Some(value) ==> value.code() == raw && value == Profile::of_code(raw),
    {
        match raw {
            0 => {
                assert(Profile::Main.code() == raw);
                Some(Profile::Main)
            },
            1 => {
                assert(Profile::Reduced.code() == raw);
                Some(Profile::Reduced)
            },
            _ => None,
        }
    }

    /// Reads a raw integer that is known to be the code of a profile.
    pub fn from_raw(raw: u32) -> (value: Profile)
        requires
            Profile::is_code(raw),
        ensures
            value.code() == raw,
            value == Profile::of_code(raw),
    {
        match raw {
            0 => Profile::Main,
            _ => Profile::Reduced,
        }
    }

    /// The codes are exactly the integers below 2.
    pub proof fn lemma_codes(raw: u32)
        ensures
            Profile::is_code(raw) <==> raw < 2,
    {
        if raw < 2 {
            assert(Profile::Main.code() == 0);
            assert(Profile::Reduced.code() == 1);
        }
    }

    /// A code determines its profile: no two share one.
    pub proof fn lemma_code_injective(a: Profile, b: Profile)
        requires
            a.code() == b.code(),
        ensures
            a == b,
    {
    }
}

impl From<Profile> for u32 {
    fn from(value: Profile) -> (raw: u32) {
        match value {
            Profile::Main => 0,
            Profile::Reduced => 1,
        }
    }
}

impl FromSpecImpl<Profile> for u32 {
    open spec fn obeys_from_spec() -> bool {
        true
    }

    open spec fn from_spec(value: Profile) -> u32 {
        value.code()
    }
}

/// Controls the amount of internal threading used by the compressor.
#[derive(Debug, Clone, Copy, PartialEq, Eq, Structural)]
pub enum Jobify {
    /// Use compressor default for level of internal job usage
    Default,
    /// Do not use jobs at all
    Disable,
    /// Try to balance parallelism with increased memory use
    Normal,
    /// Maximize parallelism at the cost of increased memory use
    Aggressive,
}

impl Jobify {
    /// The integer by which the codec knows this job mode.
    pub open spec fn code(self) -> u32 {
        match self {
            Jobify::Default => 0,
            Jobify::Disable => 1,
            Jobify::Normal => 2,
            Jobify::Aggressive => 3,
        }
    }

    /// Whether `raw` is the code of some job mode.
    pub open spec fn is_code(raw: u32) -> bool {
        exists|value: Jobify| #[trigger] value.code() == raw
    }

    /// The job mode with the code `raw`, where there is one.
    pub open spec fn of_code(raw: u32) -> Jobify
        recommends
            Jobify::is_code(raw),
    {
        choose|value: Jobify| #[trigger] value.code() == raw
    }

    /// Reads a raw integer, or says that no job mode has that code.
    pub fn try_from_raw(raw: u32) -> (found: Option<Jobify>)
        ensures
            found is Some <==> Jobify::is_code(raw),
            found matches Some(value) ==> value.code() == raw && value == Jobify::of_code(raw),
    {
        match raw {
            0 => {
                assert(Jobify::Default.code() == raw);
                Some(Jobify::Default)
            },
            1 => {
                assert(Jobify::Disable.code() == raw);
                Some(Jobify::Disable)
            },
            2 => {
                assert(Jobify::Normal.code() == raw);
                Some(Jobify::Normal)
            },
            3 => {
                assert(Jobify::Aggressive.code() == raw);
                Some(Jobify::Aggressive)
            },
            _ => None,
        }
    }

    /// Reads a raw integer that is known to be the code of a job mode.
    pub fn from_raw(raw: u32) -> (value: Jobify)
        requires
            Jobify::is_code(raw),
        ensures
            value.code() == raw,
            value == Jobify::of_code(raw),
    {
        match raw {
            0 => Jobify::Default,
            1 => Jobify::Disable,
            2 => Jobify::Normal,
            _ => Jobify::Aggressive,
        }
    }

    /// The codes are exactly the integers below 4.
    pub proof fn lemma_codes(raw: u32)
        ensures
            Jobify::is_code(raw) <==> raw < 4,
    {
        if raw < 4 {
            assert(Jobify::Default.code() == 0);
            assert(Jobify::Disable.code() == 1);
            assert(Jobify::Normal.code() == 2);
            assert(Jobify::Aggressive.code() == 3);
        }
    }

    /// A code determines its job mode: no two share one.
    pub proof fn lemma_code_injective(a: Jobify, b: Jobify)
        requires
            a.code() == b.code(),
        ensures
            a == b,
    {
    }
}

impl From<Jobify> for u32 {
    fn from(value: Jobify) -> (raw: u32) {
        match value {
            Jobify::Default => 0,
            Jobify::Disable => 1,
            Jobify::Normal => 2,
            Jobify::Aggressive => 3,
        }
    }
}

impl FromSpecImpl<Jobify> for u32 {
    open spec fn obeys_from_spec() -> bool {
        true
    }

    open spec fn from_spec(value: Jobify) -> u32 {
        value.code()
    }
}

/// Bool enum for the LZ decoder to check the CRC of the compressed data.
///
/// To use [CheckCRC::Yes], the compressed data must have been compressed with
/// the CRC option enabled.
#[derive(Debug, Clone, Copy, PartialEq, Eq, Structural)]
pub enum CheckCRC {
    /// Decode without looking at the CRCs
    No,
    /// Check the CRCs, so that corrupt data is detected and the decode aborted
    Yes,
}

impl CheckCRC {
    /// The integer by which the codec knows this choice.
    pub open spec fn code(self) -> u32 {
        match self {
            CheckCRC::No => 0,
            CheckCRC::Yes => 1,
        }
    }
}

impl From<CheckCRC> for u32 {
    fn from(value: CheckCRC) -> (raw: u32) {
        match value {
            CheckCRC::No => 0,
            CheckCRC::Yes => 1,
        }
    }
}

impl FromSpecImpl<CheckCRC> for u32 {
    open spec fn obeys_from_spec() -> bool {
        true
    }

    open spec fn from_spec(value: CheckCRC) -> u32 {
        value.code()
    }
}

impl Default for CheckCRC {
    fn default() -> (value: Self)
        ensures
            value == CheckCRC::No,
    {
        CheckCRC::No
    }
}

/// Verbosity level for LZ decompression.
#[derive(Debug, Clone, Copy, PartialEq, Eq, Structural)]
pub enum Verbosity {
    /// Will not log anything, even when the decoder sees corrupted data.
    Silent,
    /// The least logging the decoder offers
    Minimal,
    /// Some logging
    Moderate,
    /// The most logging the decoder offers
    Lots,
}

impl Verbosity {
    /// The integer by which the codec knows this verbosity.
    pub open spec fn code(self) -> u32 {
        match self {
            Verbosity::Silent => 0,
            Verbosity::Minimal => 1,
            Verbosity::Moderate => 2,
            Verbosity::Lots => 3,
        }
    }
}

impl From<Verbosity> for u32 {
    fn from(value: Verbosity) -> (raw: u32) {
        match value {
            Verbosity::Silent => 0,
            Verbosity::Minimal => 1,
            Verbosity::Moderate => 2,
            Verbosity::Lots => 3,
        }
    }
}

impl FromSpecImpl<Verbosity> for u32 {
    open spec fn obeys_from_spec() -> bool {
        true
    }

    open spec fn from_spec(value: Verbosity) -> u32 {
        value.code()
    }
}

impl Default for Verbosity {
    fn default() -> (value: Self)
        ensures
            value == Verbosity::Silent,
    {
        Verbosity::Silent
    }
}

/// Thread phase for threaded decompression.
///
/// Note that threaded decompression is only available for the Kraken compressor.
///
/// Running every phase in one call and not threading at all are one request
/// to the codec: `All` and `Unthreaded` share a code.
#[derive(Debug, Clone, Copy, PartialEq, Eq, Structural)]
pub enum DecodeThreadPhase {
    /// The first phase only
    One,
    /// The second phase only, after the first has run on the same block
    Two,
    /// Both phases in one call
    All,
    /// An ordinary decode on the calling thread
    Unthreaded,
}

impl DecodeThreadPhase {
    /// The integer by which the codec knows this phase.
    pub open spec fn code(self) -> u32 {
        match self {
            DecodeThreadPhase::One => 1,
            DecodeThreadPhase::Two => 2,
            DecodeThreadPhase::All => 3,
            DecodeThreadPhase::Unthreaded => 3,
        }
    }
}

impl From<DecodeThreadPhase> for u32 {
    fn from(value: DecodeThreadPhase) -> (raw: u32) {
        match value {
            DecodeThreadPhase::One => 1,
            DecodeThreadPhase::Two => 2,
            DecodeThreadPhase::All => 3,
            DecodeThreadPhase::Unthreaded => 3,
        }
    }
}

impl FromSpecImpl<DecodeThreadPhase> for u32 {
    open spec fn obeys_from_spec() -> bool {
        true
    }

    open spec fn from_spec(value: DecodeThreadPhase) -> u32 {
        value.code()
    }
}

impl Default for DecodeThreadPhase {
    fn default() -> (value: Self)
        ensures
            value == DecodeThreadPhase::Unthreaded,
    {
        DecodeThreadPhase::Unthreaded
    }
}

} // verus!
