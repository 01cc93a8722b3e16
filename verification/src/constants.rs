use vstd::prelude::*;

verus! {

/// The number of raw bytes per seek chunk.
pub const BLOCK_LEN: u32 = 0x4_0000;

/// The value the codec answers with when a transform fails.
pub const FAILED: u32 = 0;

/// Maximum value of `max_local_dictionary_size` in the compression options.
pub const LOCALDICTIONARYSIZE_MAX: u32 = 0x4000_0000;

} // verus!
