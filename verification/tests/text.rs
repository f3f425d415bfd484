use monitor::text::{decimal_string, digit_str, signed_decimal_string, split_text};

#[test]
fn digits_are_written_one_by_one() {
    assert_eq!(digit_str(0), "0");
    assert_eq!(digit_str(7), "7");
    assert_eq!(digit_str(9), "9");
}

#[test]
fn decimal_of_small_and_large_numbers() {
    assert_eq!(decimal_string(0), "0");
    assert_eq!(decimal_string(9), "9");
    assert_eq!(decimal_string(10), "10");
    assert_eq!(decimal_string(1905), "1905");
    assert_eq!(decimal_string(u64::MAX), "18446744073709551615");
}

#[test]
fn signed_decimal_puts_a_minus_before_negative_numbers() {
    assert_eq!(signed_decimal_string(0), "0");
    assert_eq!(signed_decimal_string(1), "1");
    assert_eq!(signed_decimal_string(-1), "-1");
    assert_eq!(signed_decimal_string(255), "255");
    assert_eq!(signed_decimal_string(i32::MAX), "2147483647");
    assert_eq!(signed_decimal_string(i32::MIN), "-2147483648");
}

#[test]
fn split_without_separator_is_one_piece() {
    assert_eq!(split_text("/usr/bin", ':'), vec!["/usr/bin".to_string()]);
    assert_eq!(split_text("", ':'), vec!["".to_string()]);
}

#[test]
fn split_keeps_order_and_empty_pieces() {
    assert_eq!(
        split_text("/usr/local/bin:/usr/bin:/bin", ':'),
        vec!["/usr/local/bin".to_string(), "/usr/bin".to_string(), "/bin".to_string()]
    );
    assert_eq!(
        split_text(":a::b:", ':'),
        vec!["".to_string(), "a".to_string(), "".to_string(), "b".to_string(), "".to_string()]
    );
}

#[test]
fn split_counts_characters_not_bytes() {
    assert_eq!(
        split_text("/höme/ü:/bin", ':'),
        vec!["/höme/ü".to_string(), "/bin".to_string()]
    );
}
