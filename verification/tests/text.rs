use robo::text::{decimal_string, numbered};

#[test]
fn decimal_of_small_and_large_numbers() {
    assert_eq!(decimal_string(0), "0");
    assert_eq!(decimal_string(7), "7");
    assert_eq!(decimal_string(10), "10");
    assert_eq!(decimal_string(1234567890), "1234567890");
    assert_eq!(decimal_string(usize::MAX), usize::MAX.to_string());
}

#[test]
fn numbered_joins_prefix_separator_and_number() {
    assert_eq!(numbered("P", "", 3), "P3");
    assert_eq!(numbered("avatar_jump", "_", 12), "avatar_jump_12");
}
