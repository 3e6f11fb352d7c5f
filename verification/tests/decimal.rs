use osu_data_loader::decimal::decimal_string;

#[test]
fn decimal_of_zero_is_a_single_zero() {
    assert_eq!(decimal_string(0), "0");
}

#[test]
fn decimal_of_single_digits() {
    let expected = ["0", "1", "2", "3", "4", "5", "6", "7", "8", "9"];
    for (n, text) in expected.iter().enumerate() {
        assert_eq!(decimal_string(n as u64), *text);
    }
}

#[test]
fn decimal_of_ten_has_two_digits() {
    assert_eq!(decimal_string(10), "10");
}

#[test]
fn decimal_keeps_inner_and_trailing_zeros() {
    assert_eq!(decimal_string(500), "500");
    assert_eq!(decimal_string(1000), "1000");
    assert_eq!(decimal_string(10203), "10203");
}

#[test]
fn decimal_of_the_largest_values() {
    assert_eq!(decimal_string(4294967295), "4294967295");
    assert_eq!(decimal_string(u64::MAX), "18446744073709551615");
}

#[test]
fn decimal_agrees_with_the_standard_formatting() {
    let mut n: u64 = 1;
    for _ in 0..60 {
        assert_eq!(decimal_string(n), format!("{}", n));
        assert_eq!(decimal_string(n - 1), format!("{}", n - 1));
        n = n.wrapping_mul(3).wrapping_add(7);
        if n == 0 {
            n = 1;
        }
    }
}
