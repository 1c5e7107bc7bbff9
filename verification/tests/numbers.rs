use aegl_bot::numbers::{i64_decimal, parse_i32_str, u64_with_commas};
use thousands::Separable;

fn text(v: Vec<char>) -> String {
    v.into_iter().collect()
}

#[test]
fn commas_match_the_thousands_crate() {
    for n in [0u64, 7, 999, 1000, 12345, 999999, 1000000, 4096, 123456789, u64::MAX] {
        assert_eq!(text(u64_with_commas(n)), n.separate_with_commas());
    }
    assert_eq!(text(u64_with_commas(1234567)), "1,234,567");
}

#[test]
fn decimal_rendering() {
    assert_eq!(text(i64_decimal(0)), "0");
    assert_eq!(text(i64_decimal(-42)), "-42");
    assert_eq!(text(i64_decimal(i64::MIN)), i64::MIN.to_string());
    assert_eq!(text(i64_decimal(i64::MAX)), i64::MAX.to_string());
}

#[test]
fn parse_like_std() {
    for s in [
        "0", "12", "+5", "-0", "-17", "", "-", "+", " 1", "1 ", "1a", "2147483647", "2147483648",
        "-2147483648", "-2147483649", "00012", "٣", "99999999999",
    ] {
        assert_eq!(parse_i32_str(s), s.parse::<i32>().ok(), "{s:?}");
    }
}

#[test]
fn commas_removed_give_the_digits_back() {
    for n in [0u64, 999, 1000, 987654321, u64::MAX] {
        let grouped = text(u64_with_commas(n));
        let digits: String = grouped.chars().filter(|c| *c != ',').collect();
        assert_eq!(digits, n.to_string());
    }
}

#[test]
fn rendering_then_parsing_gives_the_number_back() {
    for n in [0i32, 1, -1, 42, i32::MAX, i32::MIN, 1000000] {
        let shown = text(i64_decimal(n as i64));
        assert_eq!(parse_i32_str(&shown), Some(n));
    }
}
