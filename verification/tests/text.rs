use rs100::decimal::{decimal_bytes, decimal_string};

#[test]
fn decimal_string_of_small_numbers() {
    assert_eq!(decimal_string(0), "0");
    assert_eq!(decimal_string(9), "9");
    assert_eq!(decimal_string(10), "10");
    assert_eq!(decimal_string(-1), "-1");
    assert_eq!(decimal_string(-10), "-10");
    assert_eq!(decimal_string(1234567890), "1234567890");
}

#[test]
fn decimal_string_has_no_leading_zeros() {
    assert_eq!(decimal_string(100), "100");
    assert_eq!(decimal_string(1001), "1001");
    assert_eq!(decimal_string(-7000), "-7000");
}

#[test]
fn decimal_string_at_the_ends_of_the_integers() {
    assert_eq!(decimal_string(i32::MAX), "2147483647");
    assert_eq!(decimal_string(i32::MIN), "-2147483648");
}

#[test]
fn decimal_string_agrees_with_the_standard_formatting() {
    for v in (-70000i32..70000).step_by(7) {
        assert_eq!(decimal_string(v), format!("{}", v));
    }
}

#[test]
fn decimal_bytes_are_the_ascii_digits() {
    assert_eq!(decimal_bytes(0), vec![0x30]);
    assert_eq!(decimal_bytes(42), vec![0x34, 0x32]);
    assert_eq!(decimal_bytes(-305), vec![0x2d, 0x33, 0x30, 0x35]);
    assert_eq!(decimal_bytes(i32::MIN), b"-2147483648".to_vec());
}
