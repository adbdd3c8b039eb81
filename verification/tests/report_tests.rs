use sub_rate::report::{decimal_string, frequency_line};

#[test]
fn decimal_of_zero() {
    assert_eq!(decimal_string(0), "0");
}

#[test]
fn decimal_of_one_digit() {
    assert_eq!(decimal_string(7), "7");
}

#[test]
fn decimal_of_many_digits() {
    assert_eq!(decimal_string(10), "10");
    assert_eq!(decimal_string(40), "40");
    assert_eq!(decimal_string(12345), "12345");
    assert_eq!(decimal_string(1000000), "1000000");
}

#[test]
fn decimal_of_largest_count() {
    assert_eq!(decimal_string(u64::MAX), "18446744073709551615");
}

#[test]
fn frequency_line_has_the_reported_shape() {
    assert_eq!(frequency_line(0), "frequency: 0");
    assert_eq!(frequency_line(5), "frequency: 5");
    assert_eq!(frequency_line(1234), "frequency: 1234");
}
