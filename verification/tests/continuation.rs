use ohos_plugins::continuation::{
    get_continuation_data, is_continuation_restore, set_continuation_data, Error,
    CONTINUATION_DATA_MAX_BYTES,
};

#[test]
fn restore_flag_defaults_to_false() {
    assert!(is_continuation_restore(Some(true)));
    assert!(!is_continuation_restore(Some(false)));
    assert!(!is_continuation_restore(None));
}

#[test]
fn payload_normalization() {
    assert_eq!(get_continuation_data(Some("{\"a\":1}".to_string())), Some("{\"a\":1}".to_string()));
    assert_eq!(get_continuation_data(Some(String::new())), None);
    assert_eq!(get_continuation_data(None), None);
}

#[test]
fn snapshot_size_limit() {
    assert_eq!(CONTINUATION_DATA_MAX_BYTES, 96 * 1024);
    let at_limit = "a".repeat(96 * 1024);
    assert_eq!(set_continuation_data(at_limit.clone()), Ok(at_limit));
    let over = "a".repeat(96 * 1024 + 1);
    assert_eq!(set_continuation_data(over), Err(Error::PayloadTooLarge));
    assert_eq!(set_continuation_data(String::new()), Ok(String::new()));
}

#[test]
fn snapshot_size_counts_bytes() {
    // 'é' takes two bytes in UTF-8.
    let chars = "é".repeat(48 * 1024 + 1);
    assert_eq!(chars.chars().count(), 48 * 1024 + 1);
    assert_eq!(set_continuation_data(chars), Err(Error::PayloadTooLarge));
    let fits = "é".repeat(48 * 1024);
    assert_eq!(set_continuation_data(fits.clone()), Ok(fits));
}
