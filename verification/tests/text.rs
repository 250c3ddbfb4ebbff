use sfenimage::text::{
    char_text, chars_of, decimal, parse_i32, same_text, signed_decimal, split, to_ascii_upper,
};

#[test]
fn split_keeps_empty_fields() {
    assert_eq!(split("a b  c", ' '), vec!["a", "b", "", "c"]);
    assert_eq!(split("", ' '), vec![""]);
    assert_eq!(split(" ", ' '), vec!["", ""]);
    assert_eq!(split("9/9", '/'), vec!["9", "9"]);
    assert_eq!(split("no separator", '/'), vec!["no separator"]);
}

#[test]
fn parse_i32_reads_signed_decimals() {
    assert_eq!(parse_i32("12"), Some(12));
    assert_eq!(parse_i32("0"), Some(0));
    assert_eq!(parse_i32("007"), Some(7));
    assert_eq!(parse_i32("-5"), Some(-5));
    assert_eq!(parse_i32("+7"), Some(7));
    assert_eq!(parse_i32("2147483647"), Some(i32::MAX));
    assert_eq!(parse_i32("-2147483648"), Some(i32::MIN));
}

#[test]
fn parse_i32_refuses_what_is_no_number() {
    assert_eq!(parse_i32(""), None);
    assert_eq!(parse_i32("-"), None);
    assert_eq!(parse_i32("+"), None);
    assert_eq!(parse_i32("1a"), None);
    assert_eq!(parse_i32(" 1"), None);
    assert_eq!(parse_i32("--1"), None);
    assert_eq!(parse_i32("2147483648"), None);
    assert_eq!(parse_i32("-2147483649"), None);
    assert_eq!(parse_i32("99999999999999999999999999"), None);
    assert_eq!(parse_i32("１"), None);
}

#[test]
fn parse_i32_agrees_with_std() {
    for s in ["1", "-1", "+0", "-0", "42", "x", "", "3000000000", "-3000000000", "12 "] {
        assert_eq!(parse_i32(s), s.parse::<i32>().ok(), "{:?}", s);
    }
}

#[test]
fn decimal_writes_numbers() {
    assert_eq!(decimal(0), "0");
    assert_eq!(decimal(9), "9");
    assert_eq!(decimal(10), "10");
    assert_eq!(decimal(1234567890), "1234567890");
    assert_eq!(decimal(u128::MAX), format!("{}", u128::MAX));
    assert_eq!(signed_decimal(0), "0");
    assert_eq!(signed_decimal(-2), "-2");
    assert_eq!(signed_decimal(i32::MIN), "-2147483648");
    assert_eq!(signed_decimal(i32::MAX), "2147483647");
}

#[test]
fn characters_and_texts() {
    assert_eq!(to_ascii_upper('a'), 'A');
    assert_eq!(to_ascii_upper('z'), 'Z');
    assert_eq!(to_ascii_upper('K'), 'K');
    assert_eq!(to_ascii_upper('1'), '1');
    assert_eq!(to_ascii_upper('é'), 'é');
    assert_eq!(to_ascii_upper('歩'), '歩');
    assert_eq!(chars_of("v歩"), vec!['v', '歩']);
    assert_eq!(chars_of(""), Vec::<char>::new());
    assert_eq!(char_text('玉'), "玉");
    assert!(same_text("fb", "fb"));
    assert!(!same_text("fb", "f"));
    assert!(!same_text("fb", "fw"));
    assert!(same_text("", ""));
}
