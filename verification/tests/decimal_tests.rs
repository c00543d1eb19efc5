use deepseek_bot::decimal::dec_string;

#[test]
fn dec_string_single_digits() {
    assert_eq!(dec_string(0), "0");
    assert_eq!(dec_string(7), "7");
}

#[test]
fn dec_string_multiple_digits() {
    assert_eq!(dec_string(10), "10");
    assert_eq!(dec_string(512), "512");
    assert_eq!(dec_string(100200), "100200");
}

#[test]
fn dec_string_largest_value() {
    assert_eq!(dec_string(u64::MAX), "18446744073709551615");
}
