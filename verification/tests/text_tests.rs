use tomb_of_the_moon::text::decimal;

#[test]
fn decimal_of_zero() {
    assert_eq!(decimal(0), "0");
}

#[test]
fn decimal_of_positive_numbers() {
    assert_eq!(decimal(7), "7");
    assert_eq!(decimal(10), "10");
    assert_eq!(decimal(1234), "1234");
    assert_eq!(decimal(i32::MAX), "2147483647");
}

#[test]
fn decimal_of_negative_numbers() {
    assert_eq!(decimal(-1), "-1");
    assert_eq!(decimal(-305), "-305");
    assert_eq!(decimal(i32::MIN), "-2147483648");
}

#[test]
fn decimal_matches_display() {
    for n in [-1000, -99, -9, 0, 9, 99, 100, 65535, 1 << 20] {
        assert_eq!(decimal(n), n.to_string());
    }
}
