use chariot_formats::ident::optional_id;

#[test]
fn the_sentinel_and_only_the_sentinel_is_absent() {
    assert_eq!(optional_id(-1), None);
    assert_eq!(optional_id(0), Some(0));
    assert_eq!(optional_id(1), Some(1));
    assert_eq!(optional_id(-2), Some(-2));
    assert_eq!(optional_id(i32::MAX), Some(i32::MAX));
    assert_eq!(optional_id(i32::MIN), Some(i32::MIN));
}
