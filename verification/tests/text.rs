use usage_monitor::text::{
    ascii_lower_char, char_is_whitespace, chars_of, decimal_text, eq_ignore_ascii_case, is_blank,
    join2, same_text, skip_chars, starts_with, trim,
};

#[test]
fn whitespace_is_the_unicode_property() {
    let mut code = 0u32;
    while code <= 0x10FFFF {
        if let Some(c) = char::from_u32(code) {
            assert_eq!(char_is_whitespace(c), c.is_whitespace(), "U+{:04X}", code);
        }
        code += 1;
    }
}

#[test]
fn chars_of_keeps_order_and_count() {
    assert_eq!(chars_of(""), Vec::<char>::new());
    assert_eq!(chars_of("aé😀"), vec!['a', 'é', '😀']);
}

#[test]
fn blank_texts() {
    for s in ["", " ", "\n", " \t\r\n", "\u{a0}", "\u{2003}\u{3000}\u{85}", "\u{b}\u{c}"] {
        assert!(is_blank(s), "{:?}", s);
    }
    for s in ["a", " a ", "\u{200b}", "\u{feff}", "\n.\n", "\u{1f}"] {
        assert!(!is_blank(s), "{:?}", s);
    }
}

#[test]
fn trim_agrees_with_std() {
    for s in [
        "",
        " ",
        "a",
        "  a",
        "a  ",
        "\n\t a b \r\n",
        "\u{a0}x\u{3000}",
        "é",
        " 😀 \u{2028}",
        "a \u{200b} ",
        "   \n\n   ",
        "inner  space",
    ] {
        assert_eq!(trim(s), s.trim(), "{:?}", s);
        assert_eq!(is_blank(s), s.trim().is_empty(), "{:?}", s);
    }
    assert_eq!(trim("  hello world \n"), "hello world");
}

#[test]
fn equal_and_unequal_texts() {
    assert!(same_text("", ""));
    assert!(same_text("timeout", "timeout"));
    assert!(!same_text("timeout", "timeouT"));
    assert!(!same_text("timeout", "timeou"));
    assert!(!same_text("a", ""));
    assert!(same_text("é😀", "é😀"));
}

#[test]
fn prefixes() {
    assert!(starts_with("python -c print(1)", "python -c "));
    assert!(starts_with("abc", ""));
    assert!(starts_with("abc", "abc"));
    assert!(!starts_with("ab", "abc"));
    assert!(!starts_with("python -cx", "python -c "));
    assert!(!starts_with("Python -c x", "python -c "));
    assert!(starts_with("éa", "é"));
}

#[test]
fn skipping_characters() {
    assert_eq!(skip_chars("python -c code", 10), "code");
    assert_eq!(skip_chars("éab", 1), "ab");
    assert_eq!(skip_chars("ab", 0), "ab");
    assert_eq!(skip_chars("ab", 2), "");
    assert_eq!(skip_chars("ab", 3), "");
    assert_eq!(skip_chars("", 0), "");
}

#[test]
fn ascii_case() {
    assert_eq!(ascii_lower_char('A'), 'a');
    assert_eq!(ascii_lower_char('Z'), 'z');
    assert_eq!(ascii_lower_char('a'), 'a');
    assert_eq!(ascii_lower_char('@'), '@');
    assert_eq!(ascii_lower_char('['), '[');
    assert_eq!(ascii_lower_char('É'), 'É');
    for (a, b) in [("py", "PY"), ("Py", "pY"), ("", ""), ("é", "é")] {
        assert!(eq_ignore_ascii_case(a, b));
        assert!(a.eq_ignore_ascii_case(b));
    }
    for (a, b) in [("py", "pyc"), ("py", "px"), ("é", "É"), ("k", "\u{212a}"), ("a", "")] {
        assert!(!eq_ignore_ascii_case(a, b));
        assert!(!a.eq_ignore_ascii_case(b));
    }
}

#[test]
fn decimal_numbers() {
    assert_eq!(decimal_text(0), "0");
    assert_eq!(decimal_text(9), "9");
    assert_eq!(decimal_text(10), "10");
    assert_eq!(decimal_text(30), "30");
    assert_eq!(decimal_text(1234567890), "1234567890");
    assert_eq!(decimal_text(u64::MAX), "18446744073709551615");
    for n in [1u64, 5, 99, 100, 101, 60000, 4294967296] {
        assert_eq!(decimal_text(n), n.to_string());
    }
}

#[test]
fn joining() {
    assert_eq!(join2("a", "b"), "ab");
    assert_eq!(join2("", ""), "");
    assert_eq!(join2("scraper stderr: ", "x"), "scraper stderr: x");
}
