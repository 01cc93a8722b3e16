use oodle_safe::{
    CompressOptions, InvalidOptions, Jobify, Profile, RawCompressOptions, BLOCK_LEN,
    LOCALDICTIONARYSIZE_MAX,
};

/// A stand-in for the codec's clamping routine, with the three adjustments
/// the codec is known to make and nothing else.
fn clamp(mut raw: RawCompressOptions) -> RawCompressOptions {
    if raw.min_match_len < 2 {
        raw.min_match_len = 2;
    }
    if raw.seek_chunk_len < 1 << 18 {
        raw.seek_chunk_len = 1 << 18;
    }
    if raw.max_local_dictionary_size >= 1 << 30 {
        raw.max_local_dictionary_size = 1 << 29;
    }
    raw
}

fn validate_with_clamp(options: &mut CompressOptions) {
    let clamped = clamp((*options).into());
    *options = CompressOptions::try_from_raw(clamped).unwrap();
}

#[test]
fn test_default_compress_options() {
    let options = CompressOptions::default();
    assert_eq!(options.min_match_len, 0);
    assert_eq!(options.seek_chunk_reset, false);
    assert_eq!(options.seek_chunk_len, 1 << 18);
    assert_eq!(options.profile, Profile::Main);
    assert_eq!(options.dictionary_size, 0);
    assert_eq!(options.space_speed_tradeoff_bytes, 256);
    assert_eq!(options.send_quantum_crcs, false);
    assert_eq!(options.max_local_dictionary_size, 1 << 24);
    assert_eq!(options.make_long_range_matcher, true);
    assert_eq!(options.match_table_size_log2, 0);
    assert_eq!(options.jobify, Jobify::Default);
    assert_eq!(options.jobify_user_ptr, 0x0);
    assert_eq!(options.far_match_min_len, 0);
    assert_eq!(options.far_match_offset_log2, 0);
}

#[test]
fn test_default_padding_is_zero() {
    let options = CompressOptions::default();
    assert_eq!(options.unused, 0);
    assert_eq!(options.unused2, 0);
    assert_eq!(options.reserved, [0, 0, 0, 0]);
}

#[test]
fn test_default_in_native_layout() {
    let raw: RawCompressOptions = CompressOptions::default().into();
    let expected = RawCompressOptions {
        unused_was_verbosity: 0,
        min_match_len: 0,
        seek_chunk_reset: 0,
        seek_chunk_len: 262144,
        profile: 0,
        dictionary_size: 0,
        space_speed_tradeoff_bytes: 256,
        unused_was_max_huffmans_per_chunk: 0,
        send_quantum_crcs: 0,
        max_local_dictionary_size: 16777216,
        make_long_range_matcher: 1,
        match_table_size_log2: 0,
        jobify: 0,
        jobify_user_ptr: 0,
        far_match_min_len: 0,
        far_match_offset_log2: 0,
        reserved: [0, 0, 0, 0],
    };
    assert_eq!(raw, expected);
}

#[test]
fn test_pack_every_field() {
    let options = CompressOptions {
        unused: 7,
        min_match_len: 6,
        seek_chunk_reset: true,
        seek_chunk_len: 1 << 19,
        profile: Profile::Reduced,
        dictionary_size: -1,
        space_speed_tradeoff_bytes: 512,
        unused2: -3,
        send_quantum_crcs: true,
        max_local_dictionary_size: 1 << 20,
        make_long_range_matcher: false,
        match_table_size_log2: 17,
        jobify: Jobify::Normal,
        jobify_user_ptr: 0xdead_beef,
        far_match_min_len: 12,
        far_match_offset_log2: 22,
        reserved: [1, 2, 3, 4],
    };
    let raw: RawCompressOptions = options.into();
    let expected = RawCompressOptions {
        unused_was_verbosity: 7,
        min_match_len: 6,
        seek_chunk_reset: 1,
        seek_chunk_len: 524288,
        profile: 1,
        dictionary_size: -1,
        space_speed_tradeoff_bytes: 512,
        unused_was_max_huffmans_per_chunk: -3,
        send_quantum_crcs: 1,
        max_local_dictionary_size: 1048576,
        make_long_range_matcher: 0,
        match_table_size_log2: 17,
        jobify: 2,
        jobify_user_ptr: 0xdead_beef,
        far_match_min_len: 12,
        far_match_offset_log2: 22,
        reserved: [1, 2, 3, 4],
    };
    assert_eq!(raw, expected);
    assert_eq!(CompressOptions::try_from_raw(raw), Ok(options));
    assert_eq!(CompressOptions::from_raw(raw), options);
}

#[test]
fn test_lengths_keep_their_bits() {
    let mut options = CompressOptions::default();
    options.seek_chunk_len = u32::MAX;
    options.max_local_dictionary_size = 0x8000_0000;
    let raw: RawCompressOptions = options.into();
    assert_eq!(raw.seek_chunk_len, -1);
    assert_eq!(raw.max_local_dictionary_size, i32::MIN);
    assert_eq!(CompressOptions::try_from_raw(raw), Ok(options));

    options.seek_chunk_len = 0x7fff_ffff;
    options.max_local_dictionary_size = 0x8000_0001;
    let raw: RawCompressOptions = options.into();
    assert_eq!(raw.seek_chunk_len, i32::MAX);
    assert_eq!(raw.max_local_dictionary_size, -0x7fff_ffff);
    assert_eq!(CompressOptions::try_from_raw(raw), Ok(options));
}

#[test]
fn test_unpack_negative_lengths() {
    let mut raw: RawCompressOptions = CompressOptions::default().into();
    raw.seek_chunk_len = -2;
    raw.max_local_dictionary_size = -0x8000_0000;
    let options = CompressOptions::try_from_raw(raw).unwrap();
    assert_eq!(options.seek_chunk_len, 0xffff_fffe);
    assert_eq!(options.max_local_dictionary_size, 0x8000_0000);
}

#[test]
fn test_any_nonzero_flag_is_set() {
    let mut raw: RawCompressOptions = CompressOptions::default().into();
    raw.seek_chunk_reset = 2;
    raw.send_quantum_crcs = -1;
    raw.make_long_range_matcher = 0;
    let options = CompressOptions::try_from_raw(raw).unwrap();
    assert_eq!(options.seek_chunk_reset, true);
    assert_eq!(options.send_quantum_crcs, true);
    assert_eq!(options.make_long_range_matcher, false);

    let packed: RawCompressOptions = options.into();
    assert_eq!(packed.seek_chunk_reset, 1);
    assert_eq!(packed.send_quantum_crcs, 1);
    assert_ne!(packed, raw);
}

#[test]
fn test_undefined_profile_is_rejected() {
    let mut raw: RawCompressOptions = CompressOptions::default().into();
    raw.profile = 2;
    assert_eq!(
        CompressOptions::try_from_raw(raw),
        Err(InvalidOptions::Profile)
    );
    raw.profile = 1 << 30;
    assert_eq!(
        CompressOptions::try_from_raw(raw),
        Err(InvalidOptions::Profile)
    );
}

#[test]
fn test_undefined_jobify_is_rejected() {
    let mut raw: RawCompressOptions = CompressOptions::default().into();
    raw.jobify = 4;
    assert_eq!(
        CompressOptions::try_from_raw(raw),
        Err(InvalidOptions::Jobify)
    );
}

#[test]
fn test_profile_is_looked_at_first() {
    let mut raw: RawCompressOptions = CompressOptions::default().into();
    raw.profile = 9;
    raw.jobify = 9;
    assert_eq!(
        CompressOptions::try_from_raw(raw),
        Err(InvalidOptions::Profile)
    );
}

#[test]
fn test_read_clamped_record() {
    let mut options = CompressOptions::default();
    validate_with_clamp(&mut options);
    assert_eq!(options.min_match_len, 2);

    options.seek_chunk_len = 0;
    validate_with_clamp(&mut options);
    assert_eq!(options.seek_chunk_len, BLOCK_LEN);

    options.max_local_dictionary_size = LOCALDICTIONARYSIZE_MAX;
    validate_with_clamp(&mut options);
    assert_eq!(
        options.max_local_dictionary_size,
        LOCALDICTIONARYSIZE_MAX >> 1
    );
}

#[test]
fn test_clamping_twice_changes_nothing() {
    let mut options = CompressOptions::default();
    options.seek_chunk_len = 0;
    options.max_local_dictionary_size = LOCALDICTIONARYSIZE_MAX;
    options.jobify = Jobify::Disable;
    options.seek_chunk_reset = true;
    validate_with_clamp(&mut options);
    let once = options;
    validate_with_clamp(&mut options);
    assert_eq!(options, once);
    assert_eq!(once.jobify, Jobify::Disable);
    assert_eq!(once.seek_chunk_reset, true);
}
