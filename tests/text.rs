use mercado_bitcoin::text::{bool_to_string, fixed_point_to_string, i64_to_string, u64_to_string};

#[test]
fn decimal_numerals() {
    assert_eq!(u64_to_string(0), "0");
    assert_eq!(u64_to_string(7), "7");
    assert_eq!(u64_to_string(1234567890), "1234567890");
    assert_eq!(u64_to_string(u64::MAX), "18446744073709551615");
}

#[test]
fn signed_decimal_numerals() {
    assert_eq!(i64_to_string(-42), "-42");
    assert_eq!(i64_to_string(0), "0");
    assert_eq!(i64_to_string(i64::MAX), "9223372036854775807");
    assert_eq!(i64_to_string(i64::MIN), "-9223372036854775808");
}

#[test]
fn fixed_point_numerals() {
    assert_eq!(fixed_point_to_string(150000000, 8), "1.50000000");
    assert_eq!(fixed_point_to_string(20012, 2), "200.12");
    assert_eq!(fixed_point_to_string(7, 2), "0.07");
    assert_eq!(fixed_point_to_string(0, 8), "0.00000000");
    assert_eq!(fixed_point_to_string(12, 0), "12.");
}

#[test]
fn bool_words() {
    assert_eq!(bool_to_string(true), "true");
    assert_eq!(bool_to_string(false), "false");
}
