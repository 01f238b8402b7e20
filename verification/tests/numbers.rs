use toylang::number::{parse_i64, parse_u64};
use toylang::text::{chars_of, decimal, string_of};

#[test]
fn unsigned_literals_read_as_the_standard_library_reads_them() {
    for text in [
        "0", "7", "007", "+7", "18446744073709551615", "18446744073709551616", "", "+", "-", "-0",
        "-1", "1_000", " 1", "1 ", "12a", "99999999999999999999999", "٣",
    ] {
        assert_eq!(parse_u64(text), text.parse::<u64>().ok(), "{:?}", text);
    }
    assert_eq!(parse_u64("18446744073709551615"), Some(u64::MAX));
    assert_eq!(parse_u64("18446744073709551616"), None);
}

#[test]
fn signed_literals_read_as_the_standard_library_reads_them() {
    for text in [
        "0", "-0", "+0", "42", "-42", "+42", "9223372036854775807", "9223372036854775808",
        "-9223372036854775808", "-9223372036854775809", "", "+", "-", "--1", "+-1", "1-", "0x10",
    ] {
        assert_eq!(parse_i64(text), text.parse::<i64>().ok(), "{:?}", text);
    }
    assert_eq!(parse_i64("-9223372036854775808"), Some(i64::MIN));
    assert_eq!(parse_i64("9223372036854775807"), Some(i64::MAX));
}

#[test]
fn numbers_write_in_decimal() {
    assert_eq!(decimal(0), "0");
    assert_eq!(decimal(9), "9");
    assert_eq!(decimal(10), "10");
    assert_eq!(decimal(1234567890), "1234567890");
    assert_eq!(decimal(u64::MAX), "18446744073709551615");
    assert_eq!(parse_u64(&decimal(u64::MAX)), Some(u64::MAX));
}

#[test]
fn strings_split_into_characters_and_back() {
    let chars = chars_of("héllo");
    assert_eq!(chars, vec!['h', 'é', 'l', 'l', 'o']);
    assert_eq!(string_of(&chars, 1, 4), "éll");
    assert_eq!(string_of(&chars, 2, 2), "");
    assert_eq!(string_of(&chars, 0, 5), "héllo");
}
