use book_counter::text::decimal;

#[test]
fn decimal_of_zero() {
    assert_eq!(decimal(0), "0");
}

#[test]
fn decimal_of_single_digits() {
    let expected = ["0", "1", "2", "3", "4", "5", "6", "7", "8", "9"];
    for (value, text) in expected.iter().enumerate() {
        assert_eq!(decimal(value as i64), *text);
    }
}

#[test]
fn decimal_of_positive_numbers() {
    assert_eq!(decimal(10), "10");
    assert_eq!(decimal(99), "99");
    assert_eq!(decimal(100), "100");
    assert_eq!(decimal(1234567890), "1234567890");
    assert_eq!(decimal(1000000007), "1000000007");
}

#[test]
fn decimal_of_negative_numbers() {
    assert_eq!(decimal(-1), "-1");
    assert_eq!(decimal(-10), "-10");
    assert_eq!(decimal(-120), "-120");
    assert_eq!(decimal(-2147483648), "-2147483648");
}

#[test]
fn decimal_of_the_extremes() {
    assert_eq!(decimal(i64::MAX), "9223372036854775807");
    assert_eq!(decimal(i64::MIN), "-9223372036854775808");
    assert_eq!(decimal(i64::MIN + 1), "-9223372036854775807");
}

#[test]
fn decimal_prints_as_display_does() {
    let mut value: i64 = 1;
    for _ in 0..62 {
        for probe in [value - 1, value, value + 1, -value, -value - 1, 1 - value] {
            assert_eq!(decimal(probe), probe.to_string());
        }
        value *= 2;
    }
    for probe in -1100..1100 {
        assert_eq!(decimal(probe), probe.to_string());
    }
}
