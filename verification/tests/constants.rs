use oodle_safe::{BLOCK_LEN, FAILED, FUZZ_SAFE, LOCALDICTIONARYSIZE_MAX};

#[test]
fn test_constants() {
    assert_eq!(BLOCK_LEN, 1 << 18);
    assert_eq!(FAILED, 0);
    assert_eq!(LOCALDICTIONARYSIZE_MAX, 1 << 30);
}

#[test]
fn test_block_len_is_a_power_of_two() {
    assert!(BLOCK_LEN.is_power_of_two());
    assert!(LOCALDICTIONARYSIZE_MAX.is_power_of_two());
    assert!(BLOCK_LEN < LOCALDICTIONARYSIZE_MAX);
}

#[test]
fn test_fuzz_safe_code() {
    assert_eq!(FUZZ_SAFE, 1);
}
