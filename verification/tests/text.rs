use clonedir::text::{
    chars_eq, chars_of, contains_chars, decimal_string, parse_u32, parse_u64, push_decimal, push_hex, push_joined,
    split_lines, starts_with_chars, str_eq,
};

fn chars(s: &str) -> Vec<char> {
    s.chars().collect()
}

#[test]
fn numerals_print_as_format_does() {
    assert_eq!(decimal_string(0), "0");
    assert_eq!(decimal_string(1234567890), "1234567890");
    assert_eq!(decimal_string(u64::MAX), u64::MAX.to_string());
    let mut s = String::from("x=");
    push_decimal(&mut s, 42);
    assert_eq!(s, "x=42");
    let mut h = String::new();
    push_hex(&mut h, 0x1f2e3d);
    assert_eq!(h, "1f2e3d");
    let mut z = String::new();
    push_hex(&mut z, 0);
    assert_eq!(z, "0");
    let mut big = String::new();
    push_hex(&mut big, u128::MAX);
    assert_eq!(big, format!("{:x}", u128::MAX));
}

#[test]
fn unsigned_numerals_parse_as_str_parse_does() {
    assert_eq!(parse_u64(&chars("0")), Some(0));
    assert_eq!(parse_u64(&chars("+12")), Some(12));
    assert_eq!(parse_u64(&chars("007")), Some(7));
    assert_eq!(parse_u64(&chars("18446744073709551615")), Some(u64::MAX));
    assert_eq!(parse_u64(&chars("18446744073709551616")), None);
    assert_eq!(parse_u64(&chars("")), None);
    assert_eq!(parse_u64(&chars("+")), None);
    assert_eq!(parse_u64(&chars("-1")), None);
    assert_eq!(parse_u64(&chars("1 ")), None);
    assert_eq!(parse_u32(&chars("4294967295")), Some(u32::MAX));
    assert_eq!(parse_u32(&chars("4294967296")), None);
    for text in ["1", "+99", "12x", "", "4294967296", "++1"] {
        assert_eq!(parse_u32(&chars(text)), text.parse::<u32>().ok(), "{text}");
    }
}

#[test]
fn lines_split_as_str_lines_does() {
    for text in ["", "a", "a\n", "a\nb", "a\r\nb\r\n", "\n\nx", "a\rb\n", "\r\n"] {
        let got: Vec<String> = split_lines(&chars(text)).into_iter().map(|l| l.into_iter().collect()).collect();
        let want: Vec<String> = text.lines().map(String::from).collect();
        assert_eq!(got, want, "{text:?}");
    }
}

#[test]
fn comparisons_and_searches() {
    assert!(str_eq("abc", "abc"));
    assert!(!str_eq("abc", "abd"));
    assert!(!str_eq("ab", "abc"));
    assert_eq!(chars_of("héllo"), chars("héllo"));
    assert!(chars_eq(&chars("x"), &chars("x")));
    assert!(starts_with_chars(&chars("pid=12"), &chars("pid=")));
    assert!(!starts_with_chars(&chars("pi"), &chars("pid=")));
    assert!(contains_chars(&chars("never overwrites it"), &chars("never overwrites")));
    assert!(contains_chars(&chars("abc"), &chars("")));
    assert!(!contains_chars(&chars("abc"), &chars("bd")));
}

#[test]
fn joined_items_are_separated() {
    let mut out = String::from("[");
    push_joined(&mut out, &["a".to_string(), "b".to_string(), "c".to_string()], ", ");
    assert_eq!(out, "[a, b, c");
    let mut empty = String::new();
    push_joined(&mut empty, &[], ", ");
    assert_eq!(empty, "");
}
