use flyout_lite::text::{chars_of, int_chars, parse_i32_chars, parse_u32_chars, trim_chars};

fn v(s: &str) -> Vec<char> {
    s.chars().collect()
}

#[test]
fn parses_like_the_standard_library() {
    for s in ["0", "+5", "-5", "007", "2147483647", "-2147483648", "2147483648", "-", "+", "", " 1", "1a", "-0", "--1"] {
        assert_eq!(parse_i32_chars(&v(s)), s.parse::<i32>().ok(), "{s}");
        assert_eq!(parse_u32_chars(&v(s)), s.parse::<u32>().ok(), "{s}");
    }
    assert_eq!(parse_u32_chars(&v("4294967295")), Some(u32::MAX));
    assert_eq!(parse_u32_chars(&v("4294967296")), None);
    assert_eq!(parse_u32_chars(&v("99999999999999999999999")), None);
}

#[test]
fn trims_unicode_whitespace() {
    assert_eq!(trim_chars(&v(" \t a b \r\n")), v("a b"));
    assert_eq!(trim_chars(&v("\u{2003}x\u{3000}")), v("x"));
    assert_eq!(trim_chars(&v("   ")), v(""));
    assert_eq!(chars_of("h\u{e9}"), v("h\u{e9}"));
}

#[test]
fn renders_integers() {
    assert_eq!(int_chars(0), v("0"));
    assert_eq!(int_chars(-120), v("-120"));
    assert_eq!(int_chars(i64::MIN), v("-9223372036854775808"));
}
