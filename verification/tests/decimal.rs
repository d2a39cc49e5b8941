use fizzbuzz_bench::decimal::{decimal_string, decimal_string_wide, fixed_string};

#[test]
fn decimal_of_small_numbers() {
    assert_eq!(decimal_string(0), "0");
    assert_eq!(decimal_string(7), "7");
    assert_eq!(decimal_string(9), "9");
    assert_eq!(decimal_string(10), "10");
    assert_eq!(decimal_string(22), "22");
    assert_eq!(decimal_string(100), "100");
    assert_eq!(decimal_string(1234567890), "1234567890");
}

#[test]
fn decimal_of_the_largest_numbers() {
    assert_eq!(decimal_string(u32::MAX), "4294967295");
    assert_eq!(decimal_string_wide(u64::MAX as u128), "18446744073709551615");
    assert_eq!(decimal_string_wide(u128::MAX), "340282366920938463463374607431768211455");
}

#[test]
fn decimal_agrees_with_the_standard_notation() {
    for n in (0..u32::MAX).step_by(1_000_003) {
        assert_eq!(decimal_string(n), format!("{}", n));
    }
    for n in 0..2000u32 {
        assert_eq!(decimal_string(n), format!("{}", n));
    }
}

#[test]
fn decimal_reads_back_as_the_number() {
    for n in [0u32, 1, 9, 10, 99, 100, 65535, 65536, 4294967294] {
        assert_eq!(decimal_string(n).parse::<u32>(), Ok(n));
    }
}

#[test]
fn fixed_width_pads_with_zeros() {
    assert_eq!(fixed_string(5, 3), "005");
    assert_eq!(fixed_string(0, 9), "000000000");
    assert_eq!(fixed_string(123456789, 9), "123456789");
    assert_eq!(fixed_string(500_000_000, 9), "500000000");
    assert_eq!(fixed_string(42, 2), "42");
}

#[test]
fn fixed_width_keeps_the_last_digits() {
    assert_eq!(fixed_string(12345, 3), "345");
    assert_eq!(fixed_string(1000, 3), "000");
    assert_eq!(fixed_string(u128::MAX, 5), "11455");
}

#[test]
fn fixed_width_of_nothing_is_empty() {
    assert_eq!(fixed_string(0, 0), "");
    assert_eq!(fixed_string(987, 0), "");
}
