use clippo::numtext::i32_to_string;
use clippo::numtext::parse_i32;
use clippo::numtext::trim;

#[test]
fn parse_plain_numbers() {
    assert_eq!(parse_i32("0"), Some(0));
    assert_eq!(parse_i32("1"), Some(1));
    assert_eq!(parse_i32("42"), Some(42));
    assert_eq!(parse_i32("007"), Some(7));
}

#[test]
fn parse_signed_numbers() {
    assert_eq!(parse_i32("-1"), Some(-1));
    assert_eq!(parse_i32("+42"), Some(42));
    assert_eq!(parse_i32("-0"), Some(0));
}

#[test]
fn parse_at_the_type_bounds() {
    assert_eq!(parse_i32("2147483647"), Some(i32::MAX));
    assert_eq!(parse_i32("-2147483648"), Some(i32::MIN));
    assert_eq!(parse_i32("2147483648"), None);
    assert_eq!(parse_i32("-2147483649"), None);
    assert_eq!(parse_i32("99999999999999999999"), None);
}

#[test]
fn parse_rejects_malformed_text() {
    assert_eq!(parse_i32(""), None);
    assert_eq!(parse_i32("-"), None);
    assert_eq!(parse_i32("+"), None);
    assert_eq!(parse_i32("abc"), None);
    assert_eq!(parse_i32("12a"), None);
    assert_eq!(parse_i32("1 2"), None);
    assert_eq!(parse_i32(" 1"), None);
    assert_eq!(parse_i32("--1"), None);
}

#[test]
fn parse_agrees_with_std() {
    for text in ["0", "-5", "2147483647", "-2147483648", "2147483648", "x", "", "+9"] {
        assert_eq!(parse_i32(text), text.parse::<i32>().ok());
    }
}

#[test]
fn render_plain_numbers() {
    assert_eq!(i32_to_string(0), "0");
    assert_eq!(i32_to_string(7), "7");
    assert_eq!(i32_to_string(42), "42");
    assert_eq!(i32_to_string(-5), "-5");
    assert_eq!(i32_to_string(i32::MAX), "2147483647");
    assert_eq!(i32_to_string(i32::MIN), "-2147483648");
}

#[test]
fn render_then_parse_round_trips() {
    for v in [0, 1, -1, 10, -10, 123456, -654321, i32::MAX, i32::MIN] {
        assert_eq!(parse_i32(&i32_to_string(v)), Some(v));
    }
}

#[test]
fn trim_strips_whitespace() {
    assert_eq!(trim("  1\n"), "1");
    assert_eq!(trim("\t x y \r\n"), "x y");
    assert_eq!(trim(""), "");
    assert_eq!(trim(" \t\r\n"), "");
    assert_eq!(trim("abc"), "abc");
    // the full Unicode whitespace set, as str::trim strips it
    assert_eq!(trim("\u{00A0}7\u{2003}"), "7");
    assert_eq!(trim("\u{3000}x"), "x");
}

#[test]
fn trim_agrees_with_std() {
    for text in ["  1\n", "\t x y \r\n", "", " \u{2028}\u{205F}", "\u{0085}ok\u{202F}", "a b"] {
        assert_eq!(trim(text), text.trim());
    }
}
