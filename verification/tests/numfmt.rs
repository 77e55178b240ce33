use admin_share::numfmt::u128_to_string;

#[test]
fn formats_single_digits() {
    assert_eq!(u128_to_string(0), "0".to_string());
    assert_eq!(u128_to_string(7), "7".to_string());
    assert_eq!(u128_to_string(9), "9".to_string());
}

#[test]
fn formats_multi_digit_numbers() {
    assert_eq!(u128_to_string(10), "10".to_string());
    assert_eq!(u128_to_string(12345), "12345".to_string());
    assert_eq!(u128_to_string(1000000), "1000000".to_string());
}

#[test]
fn formats_the_largest_value() {
    assert_eq!(
        u128_to_string(u128::MAX),
        "340282366920938463463374607431768211455".to_string()
    );
}
