use shellce::text::{
    decimal, from_chars, is_blank, is_whitespace, join, pad_right, parse_u64, same_text,
    starts_with, to_chars, trim,
};

#[test]
fn chars_round_trip() {
    let chars = to_chars("h\u{e9}llo");
    assert_eq!(chars, vec!['h', '\u{e9}', 'l', 'l', 'o']);
    assert_eq!(from_chars(&chars, 0, 5), "h\u{e9}llo");
    assert_eq!(from_chars(&chars, 1, 3), "\u{e9}l");
    assert_eq!(from_chars(&chars, 2, 2), "");
}

#[test]
fn white_space_is_the_unicode_property() {
    for c in [' ', '\t', '\n', '\r', '\u{b}', '\u{c}', '\u{85}', '\u{a0}', '\u{1680}', '\u{2000}',
        '\u{200a}', '\u{2028}', '\u{2029}', '\u{202f}', '\u{205f}', '\u{3000}']
    {
        assert!(is_whitespace(c));
        assert!(c.is_whitespace());
    }
    for c in ['a', '0', '"', '|', '\u{8}', '\u{e}', '\u{200b}', '\u{feff}'] {
        assert!(!is_whitespace(c));
        assert!(!c.is_whitespace());
    }
}

#[test]
fn blank_means_white_space_only() {
    assert!(is_blank(&to_chars("")));
    assert!(is_blank(&to_chars(" \t\n")));
    assert!(!is_blank(&to_chars(" a ")));
}

#[test]
fn trim_takes_white_space_off_both_ends() {
    assert_eq!(trim("  a b \t\n"), "a b");
    assert_eq!(trim("a"), "a");
    assert_eq!(trim(" \t "), "");
    assert_eq!(trim(""), "");
    assert_eq!(trim("\u{3000}x\u{a0}"), "x");
}

#[test]
fn prefix_test() {
    assert!(starts_with(&to_chars("greet"), &to_chars("gr")));
    assert!(starts_with(&to_chars("greet"), &to_chars("")));
    assert!(starts_with(&to_chars("greet"), &to_chars("greet")));
    assert!(!starts_with(&to_chars("greet"), &to_chars("greets")));
    assert!(!starts_with(&to_chars("greet"), &to_chars("ge")));
}

#[test]
fn decimal_numerals() {
    assert_eq!(decimal(0), "0");
    assert_eq!(decimal(7), "7");
    assert_eq!(decimal(10), "10");
    assert_eq!(decimal(12345), "12345");
    assert_eq!(decimal(1000000), "1000000");
    assert_eq!(decimal(u64::MAX), "18446744073709551615");
}

#[test]
fn numerals_are_read_as_the_standard_library_reads_them() {
    for text in ["0", "5", "+5", "007", "18446744073709551615", "18446744073709551616", "", "+",
        "-1", " 5", "5 ", "1_000", "12a", "++1", "99999999999999999999999"]
    {
        assert_eq!(parse_u64(text), text.parse::<u64>().ok());
    }
    assert_eq!(parse_u64("42"), Some(42));
    assert_eq!(parse_u64("+18446744073709551615"), Some(u64::MAX));
    assert_eq!(parse_u64("18446744073709551616"), None);
}

#[test]
fn join_puts_the_separator_between_parts() {
    let parts = vec!["a".to_string(), "".to_string(), "b c".to_string()];
    assert_eq!(join(&parts, " "), "a  b c");
    assert_eq!(join(&parts, ", "), "a, , b c");
    assert_eq!(join(&vec!["one".to_string()], " "), "one");
    assert_eq!(join(&Vec::new(), " "), "");
}

#[test]
fn pad_right_fills_with_spaces() {
    assert_eq!(pad_right("ls", 5), "ls   ");
    assert_eq!(pad_right("hello", 5), "hello");
    assert_eq!(pad_right("longer", 5), "longer");
    assert_eq!(pad_right("", 2), "  ");
    assert_eq!(pad_right("\u{e9}", 3), "\u{e9}  ");
}

#[test]
fn same_text_compares_characters() {
    assert!(same_text("=", "="));
    assert!(!same_text("=", "=="));
    assert!(same_text("", ""));
}

#[test]
fn white_space_agrees_with_the_standard_library_on_every_character() {
    for code in 0u32..=0x10ffff {
        if let Some(c) = char::from_u32(code) {
            assert_eq!(is_whitespace(c), c.is_whitespace(), "U+{:04X}", code);
        }
    }
}

#[test]
fn trim_agrees_with_the_standard_library() {
    for text in ["", " ", "a", " a", "a ", "\t a b \n", "\u{2028}x y\u{2029}", "  \u{feff} ", "\u{85}\u{a0}z"] {
        assert_eq!(trim(text), text.trim());
    }
}

#[test]
fn decimal_agrees_with_the_standard_library() {
    let mut n: u64 = 1;
    for _ in 0..64 {
        for value in [n - 1, n, n + 1] {
            assert_eq!(decimal(value), value.to_string());
        }
        n = n.wrapping_mul(2).max(1);
    }
    assert_eq!(decimal(9999999999), "9999999999");
}

#[test]
fn pad_right_agrees_with_left_aligned_formatting() {
    for text in ["", "a", "list-vars", "exactly15chars!", "more than fifteen characters", "\u{e9}t\u{e9}"] {
        assert_eq!(pad_right(text, 15), format!("{:<15}", text));
    }
}
