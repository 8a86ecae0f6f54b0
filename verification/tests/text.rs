use thegarii::text::{decimal_text, hex_text, parse_height, scan_numeral};
use thegarii::U256;

#[test]
fn parse_height_reads_decimal() {
    assert_eq!(parse_height("100"), Some(100));
    assert_eq!(parse_height("0"), Some(0));
    assert_eq!(parse_height("007"), Some(7));
}

#[test]
fn parse_height_reads_hexadecimal_after_prefix() {
    assert_eq!(parse_height("0x64"), Some(100));
    assert_eq!(parse_height("0XfF"), Some(255));
    assert_eq!(parse_height("0x0"), Some(0));
    assert_eq!(parse_height("0xffffffffffffffff"), Some(u64::MAX));
}

#[test]
fn parse_height_accepts_one_leading_plus() {
    assert_eq!(parse_height("+7"), Some(7));
    assert_eq!(parse_height("++7"), None);
    assert_eq!(parse_height("+"), None);
    assert_eq!(parse_height("+0x10"), None);
}

#[test]
fn parse_height_rejects_what_is_no_number() {
    assert_eq!(parse_height(""), None);
    assert_eq!(parse_height("0x"), None);
    assert_eq!(parse_height("12a"), None);
    assert_eq!(parse_height("-1"), None);
    assert_eq!(parse_height(" 1"), None);
    assert_eq!(parse_height("1 "), None);
    assert_eq!(parse_height("0xg"), None);
    assert_eq!(parse_height("١٢"), None);
    assert_eq!(parse_height("1é"), None);
}

#[test]
fn parse_height_rejects_what_does_not_fit() {
    assert_eq!(parse_height("18446744073709551615"), Some(u64::MAX));
    assert_eq!(parse_height("18446744073709551616"), None);
    assert_eq!(parse_height("0x10000000000000000"), None);
    assert_eq!(parse_height("99999999999999999999999999"), None);
}

#[test]
fn scan_numeral_gives_radix_and_digit_values() {
    assert_eq!(scan_numeral("0x1aF"), Some((16, vec![1, 10, 15])));
    assert_eq!(scan_numeral("+905"), Some((10, vec![9, 0, 5])));
    assert_eq!(scan_numeral("9a"), None);
}

#[test]
fn decimal_text_writes_like_to_string() {
    assert_eq!(decimal_text(0), "0");
    assert_eq!(decimal_text(9), "9");
    assert_eq!(decimal_text(10), "10");
    assert_eq!(decimal_text(103), "103");
    assert_eq!(decimal_text(u64::MAX), "18446744073709551615");
    for n in [1u64, 42, 1000, 65535, 4294967296, 999999999999] {
        assert_eq!(decimal_text(n), n.to_string());
    }
}

#[test]
fn decimal_text_reads_back() {
    for n in [0u64, 1, 9, 10, 99, 100, 498, 65536, u64::MAX - 1, u64::MAX] {
        assert_eq!(parse_height(&decimal_text(n)), Some(n));
    }
}

#[test]
fn hex_text_writes_two_lower_case_digits_a_byte() {
    assert_eq!(hex_text(&[]), "");
    assert_eq!(hex_text(&[0x00, 0x0a, 0xff]), "000aff");
    assert_eq!(hex_text(&[0x12, 0xab, 0xcd, 0xef]), "12abcdef");
    assert_eq!(hex_text(&[0x7f]), format!("{:02x}", 0x7fu8));
}

#[test]
fn u256_parse_reads_both_radixes() {
    assert_eq!(U256::parse("0"), Some(U256::zero()));
    assert_eq!(U256::parse("255"), Some(U256::from_u64(255)));
    assert_eq!(U256::parse("0xff"), Some(U256::from_u64(255)));
    assert_eq!(U256::parse("18446744073709551615"), Some(U256::from_u64(u64::MAX)));
    assert_eq!(U256::parse(""), None);
    assert_eq!(U256::parse("1x"), None);
}

#[test]
fn u256_parse_stops_at_256_bits() {
    let max_dec = "115792089237316195423570985008687907853269984665640564039457584007913129639935";
    let over_dec = "115792089237316195423570985008687907853269984665640564039457584007913129639936";
    let max_hex = format!("0x{}", "f".repeat(64));
    let over_hex = format!("0x1{}", "0".repeat(64));
    assert!(U256::parse(max_dec).is_some());
    assert_eq!(U256::parse(max_dec), U256::parse(&max_hex));
    assert_eq!(U256::parse(over_dec), None);
    assert_eq!(U256::parse(&over_hex), None);
}

#[test]
fn u256_gt_orders_by_value() {
    let two_pow_64 = U256::parse("18446744073709551616").unwrap();
    let two_pow_128 = U256::parse("340282366920938463463374607431768211456").unwrap();
    let big = U256::from_u64(u64::MAX);
    assert!(two_pow_64.gt(&big));
    assert!(!big.gt(&two_pow_64));
    assert!(two_pow_128.gt(&two_pow_64));
    assert!(!two_pow_64.gt(&two_pow_64));
    assert!(U256::from_u64(1).gt(&U256::zero()));
    assert!(!U256::zero().gt(&U256::zero()));
}

#[test]
fn u256_mul_add_small_carries_and_overflows() {
    let big = U256::from_u64(u64::MAX);
    assert_eq!(
        big.mul_add_small(10, 9),
        U256::parse("184467440737095516159"),
    );
    assert_eq!(U256::zero().mul_add_small(u64::MAX, 7), Some(U256::from_u64(7)));
    let max = U256::parse(&format!("0x{}", "f".repeat(64))).unwrap();
    assert_eq!(max.mul_add_small(1, 0), Some(max));
    assert_eq!(max.mul_add_small(1, 1), None);
    assert_eq!(max.mul_add_small(2, 0), None);
}

#[test]
fn u256_to_words_gives_the_limbs() {
    assert_eq!(U256::from_u64(5).to_words(), (0, 0, 0, 5));
    let n = U256::parse("0x100000000000000020000000000000003").unwrap();
    assert_eq!(n.to_words(), (0, 1, 2, 3));
    let top = U256::parse(&format!("0x7{}", "0".repeat(63))).unwrap();
    assert_eq!(top.to_words(), (0x7000_0000_0000_0000, 0, 0, 0));
}
